//! Checking an application image and booting it.
//!
//! Booting a slot alternates between flash, memory and ROM operations and
//! decisions. [`ImageCheck`] makes the decisions: given the outcome of the
//! last operation it gives the next one, until it boots the image or aborts
//! with a [`BootError`]. The operations themselves are performed by the board.

use vstd::prelude::*;
use crate::boot::BootError;
use crate::imxrt::rkh::Rkth;
use crate::rom::shadow::Boot0;

verus! {

/// Image type of a signed image that runs in place (TrustZone disabled).
pub const IMAGE_TYPE_TZ_XIP_SIGNED: u32 = 0x0004;

/// The image vector table fields the checks read.
#[derive(Debug, PartialEq, Eq, Structural, Clone, Copy)]
pub struct Ivt {
    /// Length of the image in bytes.
    pub image_len: usize,
    /// Image type.
    pub image_type: u32,
    /// Offset of the certificate block header in the image.
    pub header_offset: u32,
    /// Address the image is loaded to and runs from.
    pub target_ptr: usize,
}

/// The certificate block header fields the checks read.
#[derive(Debug, PartialEq, Eq, Structural, Clone, Copy)]
pub struct CertificateBlockHeader {
    /// Length of this header in bytes.
    pub header_length: u32,
    /// Length of the certificate table that follows the header.
    pub certificate_table_length: u32,
}

/// Limits a board puts on images.
#[derive(Debug, PartialEq, Eq, Structural, Clone, Copy)]
pub struct ImageLimits {
    /// Smallest image.
    pub slot_size_start: usize,
    /// Slots must be smaller than this.
    pub slot_size_end: usize,
    /// Images may be copied to `[load_start, load_end)`.
    pub load_start: usize,
    pub load_end: usize,
}

impl ImageLimits {
    /// `p` lies in the range images may be copied to.
    pub open spec fn loadable(self, p: int) -> bool {
        self.load_start <= p < self.load_end
    }
}

/// End address of the image.
pub open spec fn target_end(ivt: Ivt) -> int {
    ivt.target_ptr + ivt.image_len
}

/// The verdict on the image vector table read from a slot of `slot_size` bytes.
pub open spec fn spec_check_ivt(limits: ImageLimits, slot_size: usize, ivt: Ivt) -> Option<BootError> {
    if ivt.image_type != IMAGE_TYPE_TZ_XIP_SIGNED {
        Some(BootError::Markers)
    } else if ivt.image_len > slot_size {
        Some(BootError::TooLarge)
    } else if ivt.image_len < limits.slot_size_start {
        Some(BootError::TooSmall)
    } else if target_end(ivt) > usize::MAX {
        Some(BootError::TooLarge)
    } else if !limits.loadable(ivt.target_ptr as int) || !limits.loadable(target_end(ivt)) {
        Some(BootError::MemoryRegion)
    } else {
        None
    }
}

/// Where in the image the root key hashes start: after the certificate block
/// header and the certificate table.
pub open spec fn rkhs_offset(ivt: Ivt, h: CertificateBlockHeader) -> int {
    ivt.header_offset + h.header_length + h.certificate_table_length
}

/// Where a boot attempt stands.
#[derive(Debug, Clone, Copy)]
pub enum Phase {
    ReadingIvt,
    Copying(Ivt),
    CheckingCopy(Ivt),
    ReadingCertHeader(Ivt),
    HashingRkhs(Ivt),
    ReadingShadow(Ivt, Rkth),
    WritingShadow(Ivt),
    Authenticating(Ivt),
    Finished,
}

/// The next operation of a boot attempt.
#[derive(Debug, Clone, Copy)]
pub enum BootAction {
    /// Read the image vector table at the start of the slot.
    ReadIvt { slot: u8 },
    /// Copy `len` bytes from the start of the slot to `target`, then
    /// invalidate the instruction cache.
    CopyImage { slot: u8, target: usize, len: usize },
    /// Read the image vector table at the start of the copy in memory.
    ReadRamIvt { target: usize, len: usize },
    /// Read the certificate block header at `offset` of the copy.
    ReadCertHeader { offset: usize },
    /// Read the four root key hashes at `offset` of the copy and hash them.
    HashRkhs { offset: usize },
    /// Reload the shadow registers from the fuses, then read BOOT_CFG0 and the RKTH.
    ReadShadow,
    /// Store this hash in the RKTH shadow registers.
    WriteShadowRkth { rkth: Rkth },
    /// Ask the ROM to authenticate the image of `len` bytes at `target`.
    Authenticate { target: usize, len: usize },
    /// Jump to the image at `target`; does not return.
    Boot { target: usize },
    /// Give up on this slot.
    Abort(BootError),
}

/// The outcome of the last operation.
#[derive(Debug, Clone, Copy)]
pub enum BootEvent {
    /// The vector table in the slot, or `None` when reading it failed.
    IvtRead(Option<Ivt>),
    /// Whether the copy succeeded.
    ImageCopied(bool),
    /// The vector table of the copy, or `None` when the copy is too small to hold one.
    RamIvtRead(Option<Ivt>),
    /// The certificate block header, or `None` when the rest of the copy is too small.
    CertHeaderRead(Option<CertificateBlockHeader>),
    /// The hash of the root key hashes, or `None` when the rest of the copy is too small.
    RkhsHashed(Option<Rkth>),
    /// BOOT_CFG0 and the RKTH after the reload.
    ShadowRead { boot0: Boot0, rkth: Rkth },
    /// The RKTH shadow registers were written.
    ShadowWritten,
    /// Whether the image authenticated.
    Authenticated(bool),
}

/// The event is the outcome that `phase` waits for.
pub open spec fn expects(phase: Phase, e: BootEvent) -> bool {
    match (phase, e) {
        (Phase::ReadingIvt, BootEvent::IvtRead(_)) => true,
        (Phase::Copying(_), BootEvent::ImageCopied(_)) => true,
        (Phase::CheckingCopy(_), BootEvent::RamIvtRead(_)) => true,
        (Phase::ReadingCertHeader(ivt), BootEvent::CertHeaderRead(h)) => match h {
            Some(h) => rkhs_offset(ivt, h) <= usize::MAX,
            None => true,
        },
        (Phase::HashingRkhs(_), BootEvent::RkhsHashed(_)) => true,
        (Phase::ReadingShadow(_, _), BootEvent::ShadowRead { .. }) => true,
        (Phase::WritingShadow(_), BootEvent::ShadowWritten) => true,
        (Phase::Authenticating(_), BootEvent::Authenticated(_)) => true,
        _ => false,
    }
}

/// The vector table a phase carries.
pub open spec fn phase_ivt(phase: Phase) -> Option<Ivt> {
    match phase {
        Phase::Copying(ivt) => Some(ivt),
        Phase::CheckingCopy(ivt) => Some(ivt),
        Phase::ReadingCertHeader(ivt) => Some(ivt),
        Phase::HashingRkhs(ivt) => Some(ivt),
        Phase::ReadingShadow(ivt, _) => Some(ivt),
        Phase::WritingShadow(ivt) => Some(ivt),
        Phase::Authenticating(ivt) => Some(ivt),
        _ => None,
    }
}

/// A boot attempt on one slot.
pub struct ImageCheck {
    limits: ImageLimits,
    slot: u8,
    slot_size: usize,
    authenticate: bool,
    phase: Phase,
}

/// What follows the shadow registers: authentication, or booting when it is skipped.
pub open spec fn after_shadow(authenticate: bool, ivt: Ivt) -> (Phase, BootAction) {
    if authenticate {
        (Phase::Authenticating(ivt), BootAction::Authenticate { target: ivt.target_ptr, len: ivt.image_len })
    } else {
        (Phase::Finished, BootAction::Boot { target: ivt.target_ptr })
    }
}

/// The decisions: the next phase and operation after `e` in phase `phase`.
pub open spec fn spec_step(
    limits: ImageLimits,
    slot: u8,
    slot_size: usize,
    authenticate: bool,
    phase: Phase,
    e: BootEvent,
) -> (Phase, BootAction) {
    match (phase, e) {
        (Phase::ReadingIvt, BootEvent::IvtRead(r)) => match r {
            None => (Phase::Finished, BootAction::Abort(BootError::IO)),
            Some(ivt) => match spec_check_ivt(limits, slot_size, ivt) {
                Some(err) => (Phase::Finished, BootAction::Abort(err)),
                None => (
                    Phase::Copying(ivt),
                    BootAction::CopyImage { slot, target: ivt.target_ptr, len: ivt.image_len },
                ),
            },
        },
        (Phase::Copying(ivt), BootEvent::ImageCopied(ok)) => if ok {
            (Phase::CheckingCopy(ivt), BootAction::ReadRamIvt { target: ivt.target_ptr, len: ivt.image_len })
        } else {
            (Phase::Finished, BootAction::Abort(BootError::IO))
        },
        (Phase::CheckingCopy(ivt), BootEvent::RamIvtRead(r)) => match r {
            None => (Phase::Finished, BootAction::Abort(BootError::TooSmall)),
            Some(ram) => if ram != ivt {
                (Phase::Finished, BootAction::Abort(BootError::ChangeAfterRead))
            } else {
                (
                    Phase::ReadingCertHeader(ivt),
                    BootAction::ReadCertHeader { offset: ivt.header_offset as usize },
                )
            },
        },
        (Phase::ReadingCertHeader(ivt), BootEvent::CertHeaderRead(r)) => match r {
            None => (Phase::Finished, BootAction::Abort(BootError::TooLarge)),
            Some(h) => (
                Phase::HashingRkhs(ivt),
                BootAction::HashRkhs { offset: rkhs_offset(ivt, h) as usize },
            ),
        },
        (Phase::HashingRkhs(ivt), BootEvent::RkhsHashed(r)) => match r {
            None => (Phase::Finished, BootAction::Abort(BootError::TooLarge)),
            Some(rkth) => (Phase::ReadingShadow(ivt, rkth), BootAction::ReadShadow),
        },
        (Phase::ReadingShadow(ivt, image_rkth), BootEvent::ShadowRead { boot0, rkth }) => {
            let dev_mode = boot0.secure_boot_bits() == 0;
            if image_rkth.0@ != rkth.0@ && dev_mode {
                (Phase::WritingShadow(ivt), BootAction::WriteShadowRkth { rkth: image_rkth })
            } else {
                after_shadow(authenticate, ivt)
            }
        },
        (Phase::WritingShadow(ivt), BootEvent::ShadowWritten) => after_shadow(authenticate, ivt),
        (Phase::Authenticating(ivt), BootEvent::Authenticated(ok)) => if ok {
            (Phase::Finished, BootAction::Boot { target: ivt.target_ptr })
        } else {
            (Phase::Finished, BootAction::Abort(BootError::Authenticate))
        },
        _ => (Phase::Finished, BootAction::Abort(BootError::IO)),
    }
}

impl ImageCheck {
    pub closed spec fn spec_limits(&self) -> ImageLimits {
        self.limits
    }

    pub closed spec fn spec_slot(&self) -> u8 {
        self.slot
    }

    pub closed spec fn spec_slot_size(&self) -> usize {
        self.slot_size
    }

    pub closed spec fn spec_authenticate(&self) -> bool {
        self.authenticate
    }

    pub closed spec fn spec_phase(&self) -> Phase {
        self.phase
    }

    /// Every vector table a phase carries passed the checks.
    pub closed spec fn wf(&self) -> bool {
        match phase_ivt(self.phase) {
            Some(ivt) => spec_check_ivt(self.limits, self.slot_size, ivt) is None,
            None => true,
        }
    }

    /// Starts a boot attempt on `slot` of a board whose slots have the sizes
    /// `slot_sizes`. `authenticate` says whether the ROM must authenticate the
    /// image before it is booted.
    ///
    /// An unknown slot aborts with `SlotUnknown`; a slot as large as the
    /// largest allowed slot or larger aborts with `TooLarge`; otherwise the
    /// vector table is read.
    pub fn new(limits: ImageLimits, slot: u8, slot_sizes: &[usize], authenticate: bool) -> (r: (Self, BootAction))
        ensures
            r.0.wf(),
            r.0.spec_limits() == limits,
            r.0.spec_slot() == slot,
            r.0.spec_authenticate() == authenticate,
            slot >= slot_sizes@.len() ==> (r.0.spec_phase() is Finished) && r.1 == BootAction::Abort(
                BootError::SlotUnknown,
            ),
            slot < slot_sizes@.len() ==> r.0.spec_slot_size() == slot_sizes@[slot as int],
            slot < slot_sizes@.len() && slot_sizes@[slot as int] >= limits.slot_size_end ==> (
            r.0.spec_phase() is Finished) && r.1 == BootAction::Abort(BootError::TooLarge),
            slot < slot_sizes@.len() && slot_sizes@[slot as int] < limits.slot_size_end ==> (
            r.0.spec_phase() is ReadingIvt) && r.1 == (BootAction::ReadIvt { slot }),
    {
        if slot as usize >= slot_sizes.len() {
            return (
                ImageCheck { limits, slot, slot_size: 0, authenticate, phase: Phase::Finished },
                BootAction::Abort(BootError::SlotUnknown),
            );
        }
        let slot_size = slot_sizes[slot as usize];
        if slot_size >= limits.slot_size_end {
            return (
                ImageCheck { limits, slot, slot_size, authenticate, phase: Phase::Finished },
                BootAction::Abort(BootError::TooLarge),
            );
        }
        (
            ImageCheck { limits, slot, slot_size, authenticate, phase: Phase::ReadingIvt },
            BootAction::ReadIvt { slot },
        )
    }

    /// Checks the image vector table read from the slot: the type must be a
    /// signed image, its length must fit in the slot and be at least the
    /// smallest image, and both its start and end address must lie in the load
    /// range.
    pub fn check_ivt(&self, ivt: &Ivt) -> (r: Option<BootError>)
        ensures
            r == spec_check_ivt(self.spec_limits(), self.spec_slot_size(), *ivt),
    {
        if ivt.image_type != IMAGE_TYPE_TZ_XIP_SIGNED {
            return Some(BootError::Markers);
        }
        if ivt.image_len > self.slot_size {
            return Some(BootError::TooLarge);
        }
        if ivt.image_len < self.limits.slot_size_start {
            return Some(BootError::TooSmall);
        }
        let end = match ivt.target_ptr.checked_add(ivt.image_len) {
            Some(end) => end,
            None => return Some(BootError::TooLarge),
        };
        let l = self.limits;
        if !(l.load_start <= ivt.target_ptr && ivt.target_ptr < l.load_end) || !(l.load_start <= end
            && end < l.load_end) {
            return Some(BootError::MemoryRegion);
        }
        None
    }

    /// Takes the outcome of the last operation and gives the next one.
    ///
    /// An image is booted only when its vector table passed the checks, its
    /// copy in memory matches the table read from flash, and, when
    /// authentication is required, the ROM authenticated it.
    pub fn step(&mut self, e: BootEvent) -> (a: BootAction)
        requires
            old(self).wf(),
            expects(old(self).spec_phase(), e),
        ensures
            final(self).wf(),
            final(self).spec_limits() == old(self).spec_limits(),
            final(self).spec_slot() == old(self).spec_slot(),
            final(self).spec_slot_size() == old(self).spec_slot_size(),
            final(self).spec_authenticate() == old(self).spec_authenticate(),
            (final(self).spec_phase(), a) == spec_step(
                old(self).spec_limits(),
                old(self).spec_slot(),
                old(self).spec_slot_size(),
                old(self).spec_authenticate(),
                old(self).spec_phase(),
                e,
            ),
            a is ReadCertHeader ==> (old(self).spec_phase() is CheckingCopy) && e
                == BootEvent::RamIvtRead(phase_ivt(old(self).spec_phase())),
            a is Boot ==> ({
                let ivt = phase_ivt(old(self).spec_phase())->0;
                &&& phase_ivt(old(self).spec_phase()) is Some
                &&& spec_check_ivt(old(self).spec_limits(), old(self).spec_slot_size(), ivt) is None
                &&& a->Boot_target == ivt.target_ptr
                &&& old(self).spec_authenticate() ==> (old(self).spec_phase() is Authenticating) && e
                    == BootEvent::Authenticated(true)
            }),
    {
        let authenticate = self.authenticate;
        match (self.phase, e) {
            (Phase::ReadingIvt, BootEvent::IvtRead(r)) => match r {
                None => {
                    self.phase = Phase::Finished;
                    BootAction::Abort(BootError::IO)
                },
                Some(ivt) => match self.check_ivt(&ivt) {
                    Some(err) => {
                        self.phase = Phase::Finished;
                        BootAction::Abort(err)
                    },
                    None => {
                        self.phase = Phase::Copying(ivt);
                        BootAction::CopyImage { slot: self.slot, target: ivt.target_ptr, len: ivt.image_len }
                    },
                },
            },
            (Phase::Copying(ivt), BootEvent::ImageCopied(ok)) => {
                if ok {
                    self.phase = Phase::CheckingCopy(ivt);
                    BootAction::ReadRamIvt { target: ivt.target_ptr, len: ivt.image_len }
                } else {
                    self.phase = Phase::Finished;
                    BootAction::Abort(BootError::IO)
                }
            },
            (Phase::CheckingCopy(ivt), BootEvent::RamIvtRead(r)) => match r {
                None => {
                    self.phase = Phase::Finished;
                    BootAction::Abort(BootError::TooSmall)
                },
                Some(ram) => {
                    if ram != ivt {
                        self.phase = Phase::Finished;
                        BootAction::Abort(BootError::ChangeAfterRead)
                    } else {
                        self.phase = Phase::ReadingCertHeader(ivt);
                        BootAction::ReadCertHeader { offset: ivt.header_offset as usize }
                    }
                },
            },
            (Phase::ReadingCertHeader(ivt), BootEvent::CertHeaderRead(r)) => match r {
                None => {
                    self.phase = Phase::Finished;
                    BootAction::Abort(BootError::TooLarge)
                },
                Some(h) => {
                    let offset = ivt.header_offset as usize + h.header_length as usize
                        + h.certificate_table_length as usize;
                    self.phase = Phase::HashingRkhs(ivt);
                    BootAction::HashRkhs { offset }
                },
            },
            (Phase::HashingRkhs(ivt), BootEvent::RkhsHashed(r)) => match r {
                None => {
                    self.phase = Phase::Finished;
                    BootAction::Abort(BootError::TooLarge)
                },
                Some(rkth) => {
                    self.phase = Phase::ReadingShadow(ivt, rkth);
                    BootAction::ReadShadow
                },
            },
            (Phase::ReadingShadow(ivt, image_rkth), BootEvent::ShadowRead { boot0, rkth }) => {
                let dev_mode = !boot0.secure_boot();
                if !image_rkth.same_as(&rkth) && dev_mode {
                    self.phase = Phase::WritingShadow(ivt);
                    BootAction::WriteShadowRkth { rkth: image_rkth }
                } else if authenticate {
                    self.phase = Phase::Authenticating(ivt);
                    BootAction::Authenticate { target: ivt.target_ptr, len: ivt.image_len }
                } else {
                    self.phase = Phase::Finished;
                    BootAction::Boot { target: ivt.target_ptr }
                }
            },
            (Phase::WritingShadow(ivt), BootEvent::ShadowWritten) => {
                if authenticate {
                    self.phase = Phase::Authenticating(ivt);
                    BootAction::Authenticate { target: ivt.target_ptr, len: ivt.image_len }
                } else {
                    self.phase = Phase::Finished;
                    BootAction::Boot { target: ivt.target_ptr }
                }
            },
            (Phase::Authenticating(ivt), BootEvent::Authenticated(ok)) => {
                self.phase = Phase::Finished;
                if ok {
                    BootAction::Boot { target: ivt.target_ptr }
                } else {
                    BootAction::Abort(BootError::Authenticate)
                }
            },
            _ => {
                self.phase = Phase::Finished;
                BootAction::Abort(BootError::IO)
            },
        }
    }
}

/// The copy in memory is used only if its vector table is the one read from
/// flash, in every field: reading back a table that differs in any field
/// aborts the attempt with `ChangeAfterRead`, a missing table aborts it too,
/// and the attempt goes on to the certificate block only after reading back
/// exactly the table read from flash.
pub proof fn lemma_changed_copy_aborts(
    limits: ImageLimits,
    slot: u8,
    slot_size: usize,
    authenticate: bool,
    ivt: Ivt,
    ram: Option<Ivt>,
)
    ensures
        ({
            let (phase, a) = spec_step(
                limits,
                slot,
                slot_size,
                authenticate,
                Phase::CheckingCopy(ivt),
                BootEvent::RamIvtRead(ram),
            );
            &&& (ram is Some && ram->0 != ivt) ==> a == BootAction::Abort(BootError::ChangeAfterRead)
                && phase is Finished
            &&& !(a is Abort) ==> ram == Some(ivt)
            &&& ram == Some(ivt) ==> a == (BootAction::ReadCertHeader {
                offset: ivt.header_offset as usize,
            })
        }),
{
}

/// A vector table passes the checks exactly when it is a signed in-place
/// image, its length fits in the slot and is at least the smallest image,
/// and both its start and its end address lie in the load range.
pub proof fn lemma_ivt_accepted_iff_within_limits(limits: ImageLimits, slot_size: usize, ivt: Ivt)
    ensures
        spec_check_ivt(limits, slot_size, ivt) is None <==> {
            &&& ivt.image_type == 0x0004
            &&& limits.slot_size_start <= ivt.image_len <= slot_size
            &&& limits.load_start <= ivt.target_ptr < limits.load_end
            &&& limits.load_start <= ivt.target_ptr + ivt.image_len < limits.load_end
        },
{
}

} // verus!
