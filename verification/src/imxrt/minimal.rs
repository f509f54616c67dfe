//! The minimal bootloader: boots the one signed image at a fixed place in
//! flash, provided a Root Key Table Hash was put in the shadow registers.
//!
//! [`MinimalBoot::step`] makes the decisions; the board reads memory, copies
//! the image, asks the ROM to authenticate it and jumps into it.

use vstd::prelude::*;

verus! {

/// Largest image length word the minimal bootloader accepts.
pub const MINIMAL_MAX_IMAGE_SIZE: u32 = 0x80000;

/// Where the image container lies in flash.
pub const MINIMAL_IMAGE_CONTAINER: u32 = 0x08020000;

/// Where the image is copied to and run from.
pub const MINIMAL_TARGET: u32 = 0x00090000;

/// Image type, in the low byte of the type word, of a signed image that runs in place.
pub const MINIMAL_XIP_SIGNED: u32 = 0x04;

/// The next operation of the minimal bootloader.
#[derive(Debug, PartialEq, Eq, Structural, Clone, Copy)]
pub enum MinimalAction {
    /// Read the first byte of the RKTH shadow registers.
    ReadShadowRkth,
    /// Read the image length word at offset 0x20 of the container.
    ReadImageLen { container: u32 },
    /// Copy `len` 32-bit words (`4 * len` bytes) from the container to the
    /// target: the length word is taken as a count of words.
    CopyImage { from: u32, to: u32, len: u32 },
    /// Read the image type word at offset 0x24 of the copy.
    ReadImageType { target: u32 },
    /// Ask the ROM to authenticate the copy.
    Authenticate { target: u32 },
    /// Point the vector table at the copy and jump into it.
    Boot { vector_table: u32 },
    /// Stop booting; `true` when there was nothing to boot, `false` on failure.
    Return(bool),
    /// Halt: the image breaks an assumption of the bootloader.
    Halt,
}

/// The outcome of the last operation.
#[derive(Debug, PartialEq, Eq, Structural, Clone, Copy)]
pub enum MinimalEvent {
    Started,
    ShadowRkthRead { first_byte: u8 },
    ImageLenRead(u32),
    ImageCopied,
    ImageTypeRead(u32),
    Authenticated(bool),
}

/// The next operation after `e`, when `e` is the outcome the previous
/// operation gives; `None` otherwise.
///
/// An unset hash (first byte zero) leaves the ROM alone; an image longer than
/// [`MINIMAL_MAX_IMAGE_SIZE`] or of another type than a signed in-place image
/// halts; only an authenticated image is booted.
pub open spec fn spec_minimal_step(last: Option<MinimalAction>, e: MinimalEvent) -> Option<MinimalAction> {
    match (last, e) {
        (None, MinimalEvent::Started) => Some(MinimalAction::ReadShadowRkth),
        (Some(MinimalAction::ReadShadowRkth), MinimalEvent::ShadowRkthRead { first_byte }) => if first_byte
            == 0 {
            Some(MinimalAction::Return(true))
        } else {
            Some(MinimalAction::ReadImageLen { container: MINIMAL_IMAGE_CONTAINER })
        },
        (Some(MinimalAction::ReadImageLen { .. }), MinimalEvent::ImageLenRead(len)) => if len
            > MINIMAL_MAX_IMAGE_SIZE {
            Some(MinimalAction::Halt)
        } else {
            Some(MinimalAction::CopyImage { from: MINIMAL_IMAGE_CONTAINER, to: MINIMAL_TARGET, len })
        },
        (Some(MinimalAction::CopyImage { .. }), MinimalEvent::ImageCopied) => Some(
            MinimalAction::ReadImageType { target: MINIMAL_TARGET },
        ),
        (Some(MinimalAction::ReadImageType { .. }), MinimalEvent::ImageTypeRead(t)) => if t & 0xff
            != MINIMAL_XIP_SIGNED {
            Some(MinimalAction::Halt)
        } else {
            Some(MinimalAction::Authenticate { target: MINIMAL_TARGET })
        },
        (Some(MinimalAction::Authenticate { .. }), MinimalEvent::Authenticated(ok)) => if ok {
            Some(MinimalAction::Boot { vector_table: MINIMAL_TARGET })
        } else {
            Some(MinimalAction::Return(false))
        },
        _ => None,
    }
}

/// The minimal bootloader's decisions.
pub struct MinimalBoot {
    last: Option<MinimalAction>,
}

impl MinimalBoot {
    /// The last operation given, `None` before the start.
    pub closed spec fn spec_last(&self) -> Option<MinimalAction> {
        self.last
    }

    /// A bootloader that has not started.
    pub fn new() -> (b: Self)
        ensures
            b.spec_last() is None,
    {
        MinimalBoot { last: None }
    }

    /// Takes the outcome of the last operation and gives the next one;
    /// `None`, with nothing changed, when the outcome does not belong to it.
    pub fn step(&mut self, e: MinimalEvent) -> (r: Option<MinimalAction>)
        ensures
            r == spec_minimal_step(old(self).spec_last(), e),
            final(self).spec_last() == (match r {
                Some(a) => Some(a),
                None => old(self).spec_last(),
            }),
            r == Some(MinimalAction::Boot { vector_table: MINIMAL_TARGET }) ==> (old(
                self,
            ).spec_last() matches Some(MinimalAction::Authenticate { .. })) && e
                == MinimalEvent::Authenticated(true),
    {
        let next = match (self.last, e) {
            (None, MinimalEvent::Started) => Some(MinimalAction::ReadShadowRkth),
            (Some(MinimalAction::ReadShadowRkth), MinimalEvent::ShadowRkthRead { first_byte }) => {
                if first_byte == 0 {
                    Some(MinimalAction::Return(true))
                } else {
                    Some(MinimalAction::ReadImageLen { container: MINIMAL_IMAGE_CONTAINER })
                }
            },
            (Some(MinimalAction::ReadImageLen { .. }), MinimalEvent::ImageLenRead(len)) => {
                if len > MINIMAL_MAX_IMAGE_SIZE {
                    Some(MinimalAction::Halt)
                } else {
                    Some(
                        MinimalAction::CopyImage {
                            from: MINIMAL_IMAGE_CONTAINER,
                            to: MINIMAL_TARGET,
                            len,
                        },
                    )
                }
            },
            (Some(MinimalAction::CopyImage { .. }), MinimalEvent::ImageCopied) => Some(
                MinimalAction::ReadImageType { target: MINIMAL_TARGET },
            ),
            (Some(MinimalAction::ReadImageType { .. }), MinimalEvent::ImageTypeRead(t)) => {
                if t & 0xff != MINIMAL_XIP_SIGNED {
                    Some(MinimalAction::Halt)
                } else {
                    Some(MinimalAction::Authenticate { target: MINIMAL_TARGET })
                }
            },
            (Some(MinimalAction::Authenticate { .. }), MinimalEvent::Authenticated(ok)) => {
                if ok {
                    Some(MinimalAction::Boot { vector_table: MINIMAL_TARGET })
                } else {
                    Some(MinimalAction::Return(false))
                }
            },
            _ => None,
        };
        if next.is_some() {
            self.last = next;
        }
        next
    }
}

} // verus!
