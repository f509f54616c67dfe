//! The sign command as a sequence of steps.
//!
//! Signing reads the input file, extracts the prelude of a bootloader,
//! produces and checks the binary image, reads the Root Key Table Hash, has
//! the image tool turn the image into a Master Boot Image, and checks that.
//! [`SignFlow`] decides each step from the outcome of the last one; reading
//! and writing files and running the image tool are left to the caller.

use vstd::prelude::*;
use crate::tool::certificates::{spec_rkth_from_hex, Rkth, RkthError};
use crate::tool::config::Config;
use crate::tool::elf::{
    parse_elf, remove_non_prelude, spec_elf32_delete_sections, spec_elf32_sections,
    spec_read_elf32, spec_removed, ElfError,
};
use crate::tool::mbi::{check_mbi_output, spec_check_mbi_output, MbiError, MAX_ADDED_LEN};
use crate::tool::objcopy::{
    image_result_view, objcopy_checked, objcopy_defined, spec_objcopy, AddressMapping, ElfImage,
    ObjcopyError,
};
use crate::tool::sign::{
    check_signed_size, objcopy_config, output_path_or_default, path_or_default, perform_checks,
    spec_check_signed_size, spec_perform_checks, CheckError, SignArguments, SignOutput,
};

verus! {

/// Why signing stopped.
#[derive(Debug, PartialEq, Eq, Structural, Clone, Copy)]
pub enum SignError {
    Elf(ElfError),
    Objcopy(ObjcopyError),
    Check(CheckError),
    Rkth(RkthError),
    Mbi(MbiError),
}

/// The next step of signing.
#[derive(Debug, Clone)]
pub enum SignAction {
    /// Read the input ELF file at `path`.
    ReadInput { path: String },
    /// Write the prelude ELF file `elf` to `path`.
    WritePrelude { path: String, elf: Vec<u8> },
    /// Read the text of the RKTH file.
    ReadRkth,
    /// Have the image tool turn `image`, run from `base_addr`, into a Master
    /// Boot Image at `output_path`, and read that back.
    MakeMbi { image: Vec<u8>, base_addr: u32, output_path: String },
    /// Signing succeeded.
    Done(SignOutput),
    /// Signing stopped with an error.
    Fail(SignError),
    /// An input breaks an assumption of the sign command: the configuration
    /// lacks the section for the image, the image cannot be produced (no
    /// segment kept, segment data missing, an address out of range), or the
    /// image tool's output is shorter than its input or than its header.
    Halt,
}

/// Where signing stands.
#[derive(Debug, PartialEq, Eq, Structural, Clone, Copy)]
pub enum SignPhase {
    ReadingInput,
    WritingPrelude,
    ReadingRkth,
    MakingMbi,
    Done,
}

/// What producing and checking the binary image gives.
pub enum ProduceOutcome {
    Halted,
    Failed(SignError),
    Produced(Seq<u8>, u32),
}

/// The address mappings and the size limit the image is produced with, or
/// `None` when the configuration lacks the section.
pub open spec fn spec_objcopy_setup(config: Config, is_bootloader: bool) -> Option<
    (Seq<AddressMapping>, Option<u32>),
> {
    if is_bootloader {
        match config.bootloader {
            Some(b) => Some((Seq::empty(), Some(b.max_size as u32))),
            None => None,
        }
    } else {
        match config.application {
            Some(a) => Some((a.address_mapping@, Some(a.slot_size as u32))),
            None => None,
        }
    }
}

/// Producing the binary image of `f` and checking it.
pub open spec fn spec_produce(config: Config, is_bootloader: bool, f: ElfImage) -> ProduceOutcome {
    match spec_objcopy_setup(config, is_bootloader) {
        None => ProduceOutcome::Halted,
        Some((ms, max_size)) => if !objcopy_defined(seq![f], ms) {
            ProduceOutcome::Halted
        } else {
            match spec_objcopy(seq![f], ms, max_size) {
                Err(e) => ProduceOutcome::Failed(SignError::Objcopy(e)),
                Ok((image, base)) => match spec_perform_checks(
                    config,
                    is_bootloader,
                    image.len(),
                    base,
                ) {
                    Err(e) => ProduceOutcome::Failed(SignError::Check(e)),
                    Ok(_) => ProduceOutcome::Produced(image, base),
                },
            }
        },
    }
}

/// The prelude ELF file written for a bootloader read from `bytes`, or why
/// it could not be made.
pub open spec fn spec_prelude(bytes: Seq<u8>) -> Result<Seq<u8>, ElfError> {
    match spec_elf32_sections(bytes) {
        None => Err(ElfError::Parse),
        Some(secs) => match spec_elf32_delete_sections(
            bytes,
            Seq::new(secs.len(), |i: int| spec_removed(secs[i])),
        ) {
            Some(out) => Ok(out),
            None => Err(ElfError::Write),
        },
    }
}

/// The image tool's output of `out_len` bytes for an image of `in_len` bytes
/// breaks the command's assumptions: it is shorter than the input, or too
/// short to hold the image type word.
pub open spec fn mbi_output_unusable(out_len: int, in_len: int) -> bool {
    out_len < in_len || (out_len - in_len <= MAX_ADDED_LEN && out_len < 0x28)
}

/// Signing a bootloader or an application image.
pub struct SignFlow {
    config: Config,
    is_bootloader: bool,
    args: SignArguments,
    file: Option<ElfImage>,
    image: Vec<u8>,
    base_addr: u32,
    rkth: Rkth,
    phase: SignPhase,
}

impl SignFlow {
    pub closed spec fn spec_config(&self) -> Config {
        self.config
    }

    pub closed spec fn spec_is_bootloader(&self) -> bool {
        self.is_bootloader
    }

    pub closed spec fn spec_args(&self) -> SignArguments {
        self.args
    }

    /// The parsed input, once read.
    pub closed spec fn spec_file(&self) -> Option<ElfImage> {
        self.file
    }

    /// The binary image, once produced, and the address it runs from.
    pub closed spec fn spec_image(&self) -> (Seq<u8>, u32) {
        (self.image@, self.base_addr)
    }

    /// The hash, once read.
    pub closed spec fn spec_rkth(&self) -> Seq<u8> {
        self.rkth.0@
    }

    pub closed spec fn spec_phase(&self) -> SignPhase {
        self.phase
    }

    pub closed spec fn wf(&self) -> bool {
        &&& (self.phase == SignPhase::WritingPrelude) ==> self.file is Some && self.file->0.wf()
    }

    /// Starts signing: the first step reads the input file.
    pub fn start(config: Config, is_bootloader: bool, args: SignArguments) -> (r: (Self, SignAction))
        ensures
            r.0.wf(),
            r.0.spec_config() == config,
            r.0.spec_is_bootloader() == is_bootloader,
            r.0.spec_args() == args,
            r.0.spec_phase() == SignPhase::ReadingInput,
            r.1 matches SignAction::ReadInput { path } && path@ == args.input_path@,
    {
        let path = args.input_path.clone();
        (
            SignFlow {
                config,
                is_bootloader,
                args,
                file: None,
                image: Vec::new(),
                base_addr: 0,
                rkth: Rkth([0u8; 32]),
                phase: SignPhase::ReadingInput,
            },
            SignAction::ReadInput { path },
        )
    }

    /// Produces the image from the parsed input and checks it.
    fn produce(&mut self, f: ElfImage) -> (a: SignAction)
        requires
            f.wf(),
        ensures
            final(self).spec_config() == old(self).spec_config(),
            final(self).spec_is_bootloader() == old(self).spec_is_bootloader(),
            final(self).spec_args() == old(self).spec_args(),
            final(self).wf(),
            match spec_produce(old(self).spec_config(), old(self).spec_is_bootloader(), f) {
                ProduceOutcome::Halted => a is Halt && final(self).spec_phase() == SignPhase::Done,
                ProduceOutcome::Failed(e) => a matches SignAction::Fail(e2) && e2 == e
                    && final(self).spec_phase() == SignPhase::Done,
                ProduceOutcome::Produced(image, base) => {
                    &&& a is ReadRkth
                    &&& final(self).spec_phase() == SignPhase::ReadingRkth
                    &&& final(self).spec_image() == (image, base)
                },
            },
    {
        let cfg = match objcopy_config(&self.config, self.is_bootloader) {
            Some(c) => c,
            None => {
                self.phase = SignPhase::Done;
                return SignAction::Halt;
            },
        };
        let ghost ms = cfg.mappings@;
        assert(spec_objcopy_setup(self.config, self.is_bootloader) == Some((ms, cfg.max_size)));
        let files = vec![f];
        assert(files@ =~= seq![f]);
        let produced = match objcopy_checked(files.as_slice(), &cfg) {
            Some(p) => p,
            None => {
                self.phase = SignPhase::Done;
                return SignAction::Halt;
            },
        };
        let (image, base_addr) = match produced {
            Ok(p) => p,
            Err(e) => {
                self.phase = SignPhase::Done;
                return SignAction::Fail(SignError::Objcopy(e));
            },
        };
        match perform_checks(&self.config, self.is_bootloader, image.as_slice(), base_addr) {
            Err(e) => {
                self.phase = SignPhase::Done;
                SignAction::Fail(SignError::Check(e))
            },
            Ok(_) => {
                self.image = image;
                self.base_addr = base_addr;
                self.phase = SignPhase::ReadingRkth;
                SignAction::ReadRkth
            },
        }
    }

    /// The input file was read: it is parsed; for a bootloader the prelude is
    /// extracted and written first, otherwise the image is produced and checked.
    pub fn on_input(&mut self, bytes: &[u8]) -> (a: SignAction)
        requires
            old(self).wf(),
            old(self).spec_phase() == SignPhase::ReadingInput,
        ensures
            final(self).wf(),
            final(self).spec_config() == old(self).spec_config(),
            final(self).spec_is_bootloader() == old(self).spec_is_bootloader(),
            final(self).spec_args() == old(self).spec_args(),
            match spec_read_elf32(bytes@) {
                None => a matches SignAction::Fail(e) && e == SignError::Elf(ElfError::Parse)
                    && final(self).spec_phase() == SignPhase::Done,
                Some(f) => if old(self).spec_is_bootloader() {
                    match spec_prelude(bytes@) {
                        Err(e) => a matches SignAction::Fail(e2) && e2 == SignError::Elf(e)
                            && final(self).spec_phase() == SignPhase::Done,
                        Ok(out) => {
                            &&& a matches SignAction::WritePrelude { path, elf } && elf@ == out
                                && path@ == path_or_default(
                                old(self).spec_args().prelude_path,
                                old(self).spec_args().input_path@,
                                "prelude.elf"@,
                            )
                            &&& final(self).spec_phase() == SignPhase::WritingPrelude
                            &&& final(self).spec_file() == Some(f)
                        },
                    }
                } else {
                    match spec_produce(old(self).spec_config(), false, f) {
                        ProduceOutcome::Halted => a is Halt && final(self).spec_phase()
                            == SignPhase::Done,
                        ProduceOutcome::Failed(e) => a matches SignAction::Fail(e2) && e2 == e
                            && final(self).spec_phase() == SignPhase::Done,
                        ProduceOutcome::Produced(image, base) => {
                            &&& a is ReadRkth
                            &&& final(self).spec_phase() == SignPhase::ReadingRkth
                            &&& final(self).spec_image() == (image, base)
                        },
                    }
                },
            },
    {
        let f = match parse_elf(bytes) {
            Ok(f) => f,
            Err(e) => {
                self.phase = SignPhase::Done;
                return SignAction::Fail(SignError::Elf(e));
            },
        };
        if self.is_bootloader {
            match remove_non_prelude(bytes) {
                Err(e) => {
                    self.phase = SignPhase::Done;
                    SignAction::Fail(SignError::Elf(e))
                },
                Ok(out) => {
                    let path = self.args.prelude_path_with_default();
                    self.file = Some(f);
                    self.phase = SignPhase::WritingPrelude;
                    SignAction::WritePrelude { path, elf: out }
                },
            }
        } else {
            self.produce(f)
        }
    }

    /// The prelude was written: the image is produced and checked.
    pub fn on_prelude_written(&mut self) -> (a: SignAction)
        requires
            old(self).wf(),
            old(self).spec_phase() == SignPhase::WritingPrelude,
        ensures
            final(self).wf(),
            final(self).spec_config() == old(self).spec_config(),
            final(self).spec_is_bootloader() == old(self).spec_is_bootloader(),
            final(self).spec_args() == old(self).spec_args(),
            match spec_produce(
                old(self).spec_config(),
                old(self).spec_is_bootloader(),
                old(self).spec_file()->0,
            ) {
                ProduceOutcome::Halted => a is Halt && final(self).spec_phase() == SignPhase::Done,
                ProduceOutcome::Failed(e) => a matches SignAction::Fail(e2) && e2 == e
                    && final(self).spec_phase() == SignPhase::Done,
                ProduceOutcome::Produced(image, base) => {
                    &&& a is ReadRkth
                    &&& final(self).spec_phase() == SignPhase::ReadingRkth
                    &&& final(self).spec_image() == (image, base)
                },
            },
    {
        let f = match self.file.take() {
            Some(f) => f,
            None => {
                self.phase = SignPhase::Done;
                return SignAction::Halt;
            },
        };
        self.produce(f)
    }

    /// The text of the RKTH file was read: the hash is parsed, then the image
    /// tool makes the Master Boot Image at the output path.
    pub fn on_rkth(&mut self, text: &str) -> (a: SignAction)
        requires
            old(self).wf(),
            old(self).spec_phase() == SignPhase::ReadingRkth,
        ensures
            final(self).wf(),
            final(self).spec_config() == old(self).spec_config(),
            final(self).spec_is_bootloader() == old(self).spec_is_bootloader(),
            final(self).spec_args() == old(self).spec_args(),
            final(self).spec_image() == old(self).spec_image(),
            match spec_rkth_from_hex(text@) {
                Err(e) => a matches SignAction::Fail(e2) && e2 == SignError::Rkth(e)
                    && final(self).spec_phase() == SignPhase::Done,
                Ok(h) => {
                    &&& a matches SignAction::MakeMbi { image, base_addr, output_path }
                        && (image@, base_addr) == old(self).spec_image() && output_path@
                        == output_path_or_default(
                        old(self).spec_args().output_path,
                        old(self).spec_args().input_path@,
                    )
                    &&& final(self).spec_phase() == SignPhase::MakingMbi
                    &&& final(self).spec_rkth() == h
                },
            },
    {
        match Rkth::from_hex(text) {
            Err(e) => {
                self.phase = SignPhase::Done;
                SignAction::Fail(SignError::Rkth(e))
            },
            Ok(h) => {
                self.rkth = h;
                self.phase = SignPhase::MakingMbi;
                let output_path = self.args.output_path_with_default();
                let image = vstd::slice::slice_to_vec(self.image.as_slice());
                SignAction::MakeMbi { image, base_addr: self.base_addr, output_path }
            },
        }
    }

    /// The image tool's output was read back: it is checked, and so is its
    /// size against the configured limit; then signing is done.
    pub fn on_mbi(&mut self, signed: &[u8]) -> (a: SignAction)
        requires
            old(self).wf(),
            old(self).spec_phase() == SignPhase::MakingMbi,
        ensures
            final(self).wf(),
            final(self).spec_phase() == SignPhase::Done,
            ({
                let in_len = old(self).spec_image().0.len() as int;
                if mbi_output_unusable(signed@.len() as int, in_len) {
                    a is Halt
                } else {
                    match spec_check_mbi_output(signed@, in_len as nat, old(self).spec_is_bootloader()) {
                        Err(e) => a matches SignAction::Fail(e2) && e2 == SignError::Mbi(e),
                        Ok(_) => match spec_check_signed_size(
                            old(self).spec_config(),
                            old(self).spec_is_bootloader(),
                            signed@.len(),
                        ) {
                            Err(e) => a matches SignAction::Fail(e2) && e2 == SignError::Check(e),
                            Ok(_) => a matches SignAction::Done(o) && o.rkth.0@ == old(self).spec_rkth()
                                && o.output_path is Some && o.output_path->0@ == output_path_or_default(
                                old(self).spec_args().output_path,
                                old(self).spec_args().input_path@,
                            ),
                        },
                    }
                }
            }),
    {
        self.phase = SignPhase::Done;
        let in_len = self.image.len();
        if signed.len() < in_len {
            return SignAction::Halt;
        }
        if signed.len() - in_len <= MAX_ADDED_LEN && signed.len() < 0x28 {
            return SignAction::Halt;
        }
        if let Err(e) = check_mbi_output(signed, in_len, self.is_bootloader) {
            return SignAction::Fail(SignError::Mbi(e));
        }
        if let Err(e) = check_signed_size(&self.config, self.is_bootloader, signed) {
            return SignAction::Fail(SignError::Check(e));
        }
        let output_path = self.args.output_path_with_default();
        SignAction::Done(SignOutput { output_path: Some(output_path), rkth: self.rkth })
    }
}

} // verus!
