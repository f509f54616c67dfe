//! Running an image on a target for testing: the shadow registers set before
//! the reset, and the arguments of the debugger that attaches afterwards.
//!
//! [`RunSetup`] gives the target operations in order; the debug probe
//! performs them.

use vstd::prelude::*;
use crate::bytes::le_word_at;
use crate::tool::certificates::Rkth;
use crate::tool::text::strings_of;

verus! {

/// Shadow register of the Root Key Table Hash.
pub const RKTH_SHADOW: u32 = 0x401301E0;

/// Shadow register of the OTP master key.
pub const OTP_KEY_SHADOW: u32 = 0x401301C0;

/// Shadow register of BOOT_CFG0.
pub const BOOT_CFG0_SHADOW: u32 = 0x40130180;

/// Shadow register holding the USE_PUF bit.
pub const USE_PUF_SHADOW: u32 = 0x40130194;

/// BOOT_CFG0 with secure boot enabled and DICE skipped.
pub const BOOT_CFG0_SECURE_NO_DICE: u32 = 0x1E900000;

/// The USE_PUF bit.
pub const USE_PUF_BIT: u32 = 0x80;

/// Words written to target memory from `address` on.
#[derive(Debug, PartialEq, Eq, Clone)]
pub struct MemoryWrite {
    pub address: u32,
    pub words: Vec<u32>,
}

/// The writes made before the reset: the hash as eight little-endian words,
/// then the master key words, then BOOT_CFG0 enabling secure boot and
/// skipping DICE.
pub fn shadow_setup_writes(rkth: &Rkth, otp_key_words: &[u32]) -> (v: Vec<MemoryWrite>)
    ensures
        v@.len() == 3,
        v@[0].address == RKTH_SHADOW,
        v@[0].words@.len() == 8,
        forall|i: int| 0 <= i < 8 ==> v@[0].words@[i] == le_word_at(rkth.0@, i),
        v@[1].address == OTP_KEY_SHADOW,
        v@[1].words@ == otp_key_words@,
        v@[2].address == BOOT_CFG0_SHADOW,
        v@[2].words@ == seq![BOOT_CFG0_SECURE_NO_DICE],
{
    let mut v: Vec<MemoryWrite> = Vec::new();
    v.push(MemoryWrite { address: RKTH_SHADOW, words: rkth.as_u32_le() });
    v.push(MemoryWrite { address: OTP_KEY_SHADOW, words: vstd::slice::slice_to_vec(otp_key_words) });
    let mut cfg: Vec<u32> = Vec::new();
    cfg.push(BOOT_CFG0_SECURE_NO_DICE);
    v.push(MemoryWrite { address: BOOT_CFG0_SHADOW, words: cfg });
    assert(v@[2].words@ =~= seq![BOOT_CFG0_SECURE_NO_DICE]);
    v
}

/// The writes made first, as address and words: the hash as eight
/// little-endian words, the master key words, and BOOT_CFG0.
pub open spec fn spec_setup_writes(rkth: Seq<u8>, otp_key_words: Seq<u32>) -> Seq<(u32, Seq<u32>)> {
    seq![
        (RKTH_SHADOW, Seq::new(8, |i: int| le_word_at(rkth, i))),
        (OTP_KEY_SHADOW, otp_key_words),
        (BOOT_CFG0_SHADOW, seq![BOOT_CFG0_SECURE_NO_DICE]),
    ]
}

/// The next operation on the target while preparing it to run an image.
#[derive(Debug, PartialEq, Eq, Clone)]
pub enum RunAction {
    /// Write words to target memory.
    Write(MemoryWrite),
    /// Read the word at `address`.
    ReadWord { address: u32 },
    /// Reset the core.
    Reset,
    /// Attach the debugger (with [`attach_args`]) to run the image.
    Attach,
}

/// The outcome of the last operation.
#[derive(Debug, PartialEq, Eq, Structural, Clone, Copy)]
pub enum RunEvent {
    Written,
    WordRead(u32),
    ResetDone,
}

/// Where the preparation stands.
#[derive(Debug, PartialEq, Eq, Structural, Clone, Copy)]
pub enum RunPhase {
    /// Setup write `i` was given.
    Setup(usize),
    ReadingUsePuf,
    ClearingUsePuf,
    Resetting,
    Done,
}

/// Preparing the target: the shadow registers are written, the USE_PUF bit
/// is cleared by reading and rewriting its word, the core is reset, and then
/// the debugger attaches.
pub struct RunSetup {
    writes: Vec<MemoryWrite>,
    phase: RunPhase,
}

fn copy_write(w: &MemoryWrite) -> (r: MemoryWrite)
    ensures
        r.address == w.address,
        r.words@ == w.words@,
{
    MemoryWrite { address: w.address, words: vstd::slice::slice_to_vec(w.words.as_slice()) }
}

impl RunSetup {
    /// The setup writes, as address and words.
    pub closed spec fn spec_writes(&self) -> Seq<(u32, Seq<u32>)> {
        Seq::new(self.writes@.len(), |i: int| (self.writes@[i].address, self.writes@[i].words@))
    }

    pub closed spec fn spec_phase(&self) -> RunPhase {
        self.phase
    }

    pub closed spec fn wf(&self) -> bool {
        &&& self.writes@.len() == 3
        &&& self.phase matches RunPhase::Setup(i) ==> i < 3
    }

    /// Starts preparing the target to run with the hash `rkth` and the master
    /// key words `otp_key_words` (as the OTP key file gives them for the
    /// shadow registers); the first operation writes the hash.
    pub fn start(rkth: &Rkth, otp_key_words: &[u32]) -> (r: (Self, RunAction))
        ensures
            r.0.wf(),
            r.0.spec_writes() == spec_setup_writes(rkth.0@, otp_key_words@),
            r.0.spec_phase() == RunPhase::Setup(0),
            r.1 matches RunAction::Write(w) && (w.address, w.words@) == r.0.spec_writes()[0],
    {
        let writes = shadow_setup_writes(rkth, otp_key_words);
        let first = copy_write(&writes[0]);
        let s = RunSetup { writes, phase: RunPhase::Setup(0) };
        assert(s.spec_writes()[0].1 =~= spec_setup_writes(rkth.0@, otp_key_words@)[0].1);
        assert(s.spec_writes()[2].1 =~= spec_setup_writes(rkth.0@, otp_key_words@)[2].1);
        assert(s.spec_writes() =~= spec_setup_writes(rkth.0@, otp_key_words@));
        (s, RunAction::Write(first))
    }

    /// Takes the outcome of the last operation and gives the next one, in
    /// this order: the three setup writes; a read of the USE_PUF word; its
    /// rewrite with the USE_PUF bit cleared and the other bits kept; the
    /// reset; the attach. `None`, with nothing changed, when the outcome
    /// does not belong to the last operation.
    pub fn step(&mut self, e: RunEvent) -> (r: Option<RunAction>)
        requires
            old(self).wf(),
        ensures
            final(self).wf(),
            final(self).spec_writes() == old(self).spec_writes(),
            match (old(self).spec_phase(), e) {
                (RunPhase::Setup(i), RunEvent::Written) => if i + 1 < 3 {
                    &&& final(self).spec_phase() == RunPhase::Setup((i + 1) as usize)
                    &&& r matches Some(RunAction::Write(w)) && (w.address, w.words@)
                        == old(self).spec_writes()[i + 1]
                } else {
                    &&& final(self).spec_phase() == RunPhase::ReadingUsePuf
                    &&& r == Some(RunAction::ReadWord { address: USE_PUF_SHADOW })
                },
                (RunPhase::ReadingUsePuf, RunEvent::WordRead(v)) => {
                    &&& final(self).spec_phase() == RunPhase::ClearingUsePuf
                    &&& r matches Some(RunAction::Write(w)) && w.address == USE_PUF_SHADOW
                        && w.words@ == seq![v & !USE_PUF_BIT]
                },
                (RunPhase::ClearingUsePuf, RunEvent::Written) => {
                    &&& final(self).spec_phase() == RunPhase::Resetting
                    &&& r == Some(RunAction::Reset)
                },
                (RunPhase::Resetting, RunEvent::ResetDone) => {
                    &&& final(self).spec_phase() == RunPhase::Done
                    &&& r == Some(RunAction::Attach)
                },
                _ => r is None && final(self).spec_phase() == old(self).spec_phase(),
            },
    {
        match (self.phase, e) {
            (RunPhase::Setup(i), RunEvent::Written) => {
                if i + 1 < 3 {
                    self.phase = RunPhase::Setup(i + 1);
                    Some(RunAction::Write(copy_write(&self.writes[i + 1])))
                } else {
                    self.phase = RunPhase::ReadingUsePuf;
                    Some(RunAction::ReadWord { address: USE_PUF_SHADOW })
                }
            },
            (RunPhase::ReadingUsePuf, RunEvent::WordRead(v)) => {
                self.phase = RunPhase::ClearingUsePuf;
                let mut words: Vec<u32> = Vec::new();
                words.push(without_use_puf(v));
                assert(words@ =~= seq![v & !USE_PUF_BIT]);
                Some(RunAction::Write(MemoryWrite { address: USE_PUF_SHADOW, words }))
            },
            (RunPhase::ClearingUsePuf, RunEvent::Written) => {
                self.phase = RunPhase::Resetting;
                Some(RunAction::Reset)
            },
            (RunPhase::Resetting, RunEvent::ResetDone) => {
                self.phase = RunPhase::Done;
                Some(RunAction::Attach)
            },
            _ => None,
        }
    }
}

/// The USE_PUF shadow word with the USE_PUF bit cleared and the other bits kept.
pub fn without_use_puf(word: u32) -> (r: u32)
    ensures
        r == word & !USE_PUF_BIT,
        r & USE_PUF_BIT == 0,
        forall|b: u32| b < 32 && b != 7 ==> (r >> b) & 1 == (word >> b) & 1,
{
    let r = word & !USE_PUF_BIT;
    assert(r & USE_PUF_BIT == 0) by (bit_vector)
        requires
            r == word & !0x80u32,
            USE_PUF_BIT == 0x80u32,
    ;
    assert(forall|b: u32| b < 32 && b != 7 ==> (r >> b) & 1 == (word >> b) & 1) by (bit_vector)
        requires
            r == word & !0x80u32,
    ;
    r
}

/// The arguments that make the debugger attach to `chip`, through `probe`
/// when one is named, and run the image `input`.
pub fn attach_args(chip: &str, probe: Option<&str>, input: &str) -> (r: Vec<String>)
    ensures
        match probe {
            None => r@.len() == 4 && r@[3]@ == input@,
            Some(p) => r@.len() == 6 && r@[3]@ == "--probe"@ && r@[4]@ == p@ && r@[5]@ == input@,
        },
        r@[0]@ == "attach"@,
        r@[1]@ == "--chip"@,
        r@[2]@ == chip@,
{
    match probe {
        None => strings_of(&["attach", "--chip", chip, input]),
        Some(p) => strings_of(&["attach", "--chip", chip, "--probe", p, input]),
    }
}

} // verus!
