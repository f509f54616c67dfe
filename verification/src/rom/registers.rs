//! Registers that exist both as OTP fuses and as shadow registers.
//!
//! The shadow registers live in a memory-mapped block; the fuses are reached
//! through the OTP ROM API. Both are accessed word by word. This module decides
//! which words are touched and with which values; the accesses themselves are
//! performed by the caller.

use vstd::prelude::*;
use crate::bytes::{le_byte, le_word_at, byte_of_word, word_from_le};
use crate::rom::shadow::FuseWrite;

verus! {

/// Base address of the shadow register block.
pub const OTP_SHADOW_BASE_ADDR: usize = 0x40130000;

/// The OTP word index has no shadow register.
#[derive(Debug, PartialEq, Eq, Structural, Clone, Copy)]
pub struct NotShadowRegister;

/// Offset in the shadow block of the register that mirrors OTP word `i`, if any.
pub open spec fn spec_shadow_offset(i: u32) -> Option<int> {
    if 8 <= i <= 9 {
        Some((i - 8) * 4 + 0x020)
    } else if 95 <= i <= 127 {
        Some((i - 95) * 4 + 0x17C)
    } else if 492 <= i <= 495 {
        Some((i - 492) * 4 + 0x7B0)
    } else {
        None
    }
}

/// Address of the shadow register that mirrors OTP word `i`, if any.
pub open spec fn spec_shadow_addr(i: u32) -> Option<int> {
    match spec_shadow_offset(i) {
        Some(off) => Some(OTP_SHADOW_BASE_ADDR + off),
        None => None,
    }
}

/// Converts an OTP word index to its address in the shadow register block.
pub fn otp_to_shadow_addr(otp_word_i: u32) -> (r: Result<usize, NotShadowRegister>)
    ensures
        r is Ok <==> spec_shadow_addr(otp_word_i) is Some,
        r is Ok ==> spec_shadow_addr(otp_word_i) == Some(r->Ok_0 as int),
        r is Err ==> r == Err::<usize, NotShadowRegister>(NotShadowRegister),
{
    let shadow_offset: u32 = if 8 <= otp_word_i && otp_word_i <= 9 {
        (otp_word_i - 8) * 4 + 0x020
    } else if 95 <= otp_word_i && otp_word_i <= 127 {
        (otp_word_i - 95) * 4 + 0x17C
    } else if 492 <= otp_word_i && otp_word_i <= 495 {
        (otp_word_i - 492) * 4 + 0x7B0
    } else {
        return Err(NotShadowRegister);
    };
    Ok(OTP_SHADOW_BASE_ADDR + shadow_offset as usize)
}

/// One word to store in the shadow register block.
#[derive(Debug, PartialEq, Eq, Structural, Clone, Copy)]
pub struct ShadowWrite {
    pub address: usize,
    pub word: u32,
}

/// The stores a shadow write performs, and how it ends.
///
/// The stores are performed in order; when `outcome` is an error, they are
/// the ones that were made before the word that has no shadow register.
#[derive(Debug)]
pub struct ShadowWritePlan {
    pub writes: Vec<ShadowWrite>,
    pub outcome: Result<(), NotShadowRegister>,
}

/// Number of whole words in `len` bytes.
pub open spec fn whole_words(len: int) -> int {
    len / 4
}

/// Interface to the shadow registers.
pub struct ShadowInterface {
    _private: (),
}

impl ShadowInterface {
    /// Plans writing `data` to the registers that mirror OTP words from
    /// `otp_word_i` on: chunk `k` of four bytes becomes the little-endian word
    /// stored at the shadow address of word `otp_word_i + k`. A trailing partial
    /// chunk is ignored. Stops at the first word without a shadow register.
    pub fn write_register(&self, otp_word_i: u32, size_bits: u32, data: &[u8]) -> (p:
        ShadowWritePlan)
        ensures
            ({
                let n = whole_words(data@.len() as int);
                let m = p.writes@.len();
                &&& m <= n
                &&& forall|k: int|
                    0 <= k < m ==> spec_shadow_addr((otp_word_i + k) as u32) == Some(
                        (#[trigger] p.writes@[k]).address as int,
                    ) && p.writes@[k].word == le_word_at(data@, k)
                &&& (m == n <==> p.outcome is Ok)
                &&& m < n ==> spec_shadow_addr((otp_word_i + m) as u32) is None
            }),
    {
        let len = data.len();
        let n = len / 4;
        let mut writes: Vec<ShadowWrite> = Vec::new();
        let mut k: usize = 0;
        while k < n
            invariant
                n == data@.len() / 4,
                len == data@.len(),
                k <= n,
                writes@.len() == k,
                k > 0 ==> otp_word_i + k <= 496,
                forall|j: int|
                    0 <= j < k ==> spec_shadow_addr((otp_word_i + j) as u32) == Some(
                        (#[trigger] writes@[j]).address as int,
                    ) && writes@[j].word == le_word_at(data@, j),
            decreases n - k,
        {
            let word_i = otp_word_i + k as u32;
            assert(4 * k + 3 < len) by (nonlinear_arith)
                requires
                    k < n,
                    n == len / 4,
            ;
            match otp_to_shadow_addr(word_i) {
                Ok(address) => {
                    assert(spec_shadow_addr(word_i) == Some(address as int));
                    let word = word_from_le(data[4 * k], data[4 * k + 1], data[4 * k + 2], data[4 * k + 3]);
                    writes.push(ShadowWrite { address, word });
                    assert(writes@[k as int] == ShadowWrite { address, word });
                    assert(word == le_word_at(data@, k as int));
                    assert(spec_shadow_addr((otp_word_i + k) as u32) == Some(address as int));
                },
                Err(e) => {
                    return ShadowWritePlan { writes, outcome: Err(e) };
                },
            }
            k = k + 1;
        }
        ShadowWritePlan { writes, outcome: Ok(()) }
    }

    /// Address to read `len` bytes from for the registers that mirror OTP words
    /// from `otp_word_i` on: the shadow address of the first word.
    pub fn read_register(&self, otp_word_i: u32, size_bits: u32, len: usize) -> (r: Result<
        usize,
        NotShadowRegister,
    >)
        ensures
            r is Ok <==> spec_shadow_addr(otp_word_i) is Some,
            r is Ok ==> spec_shadow_addr(otp_word_i) == Some(r->Ok_0 as int),
            r is Err ==> r == Err::<usize, NotShadowRegister>(NotShadowRegister),
    {
        otp_to_shadow_addr(otp_word_i)
    }
}

/// A status code returned by the OTP ROM API.
#[derive(Debug, PartialEq, Eq, Structural, Clone, Copy)]
pub struct RomError(pub u32);

/// Errors accessing the OTP fuses.
#[derive(Debug, PartialEq, Eq, Structural, Clone, Copy)]
pub enum OtpError {
    WriteNotAllowed,
    Inner(RomError),
}

impl From<RomError> for OtpError {
    fn from(value: RomError) -> (r: Self)
        ensures
            r == OtpError::Inner(value),
    {
        OtpError::Inner(value)
    }
}

impl vstd::std_specs::convert::FromSpecImpl<RomError> for OtpError {
    open spec fn obeys_from_spec() -> bool {
        true
    }

    open spec fn from_spec(value: RomError) -> Self {
        OtpError::Inner(value)
    }
}

/// Interface to the OTP fuses through the ROM API.
pub struct OtpInterface {
    allow_write: bool,
    mode_locked: bool,
}

impl OtpInterface {
    pub closed spec fn spec_allow_write(&self) -> bool {
        self.allow_write
    }

    pub closed spec fn spec_mode_locked(&self) -> bool {
        self.mode_locked
    }

    /// Plans programming `data` into the fuses from word `address` on: chunk
    /// `k` of four bytes is the little-endian word for fuse `address + k`, locked
    /// when the interface is in locked mode. A trailing partial chunk is ignored.
    /// Refused when the interface was not opened for writing.
    pub fn write_register(&self, address: u32, size_bits: u32, data: &[u8]) -> (r: Result<
        Vec<FuseWrite>,
        OtpError,
    >)
        requires
            self.spec_allow_write() ==> address + whole_words(data@.len() as int) <= u32::MAX + 1,
        ensures
            !self.spec_allow_write() ==> r == Err::<Vec<FuseWrite>, OtpError>(
                OtpError::WriteNotAllowed,
            ),
            self.spec_allow_write() ==> r is Ok && ({
                let v = r->Ok_0;
                &&& v@.len() == whole_words(data@.len() as int)
                &&& forall|k: int|
                    0 <= k < v@.len() ==> v@[k] == (FuseWrite {
                        address: (address + k) as u32,
                        word: le_word_at(data@, k),
                        lock: self.spec_mode_locked(),
                    })
            }),
    {
        if !self.allow_write {
            return Err(OtpError::WriteNotAllowed);
        }
        let len = data.len();
        let n = len / 4;
        let mut v: Vec<FuseWrite> = Vec::new();
        let mut k: usize = 0;
        while k < n
            invariant
                n == whole_words(data@.len() as int),
                len == data@.len(),
                address + n <= u32::MAX + 1,
                k <= n,
                v@.len() == k,
                forall|j: int|
                    0 <= j < k ==> v@[j] == (FuseWrite {
                        address: (address + j) as u32,
                        word: le_word_at(data@, j),
                        lock: self.mode_locked,
                    }),
            decreases n - k,
        {
            assert(4 * k + 3 < len) by (nonlinear_arith)
                requires
                    k < n,
                    n == len / 4,
            ;
            let word = word_from_le(data[4 * k], data[4 * k + 1], data[4 * k + 2], data[4 * k + 3]);
            v.push(FuseWrite { address: address + k as u32, word, lock: self.mode_locked });
            k = k + 1;
        }
        Ok(v)
    }

    /// The fuse words a read of `len` bytes from word `address` on fetches:
    /// `address + k` for each whole chunk `k` of four bytes.
    pub fn read_register(&self, address: u32, size_bits: u32, len: usize) -> (v: Vec<u32>)
        requires
            address + whole_words(len as int) <= u32::MAX + 1,
        ensures
            v@.len() == whole_words(len as int),
            forall|k: int| 0 <= k < v@.len() ==> v@[k] == address + k,
    {
        let n = len / 4;
        let mut v: Vec<u32> = Vec::new();
        let mut k: usize = 0;
        while k < n
            invariant
                n == whole_words(len as int),
                address + n <= u32::MAX + 1,
                k <= n,
                v@.len() == k,
                forall|j: int| 0 <= j < k ==> v@[j] == address + j,
            decreases n - k,
        {
            v.push(address + k as u32);
            k = k + 1;
        }
        v
    }
}

/// The fuse writes that programming `data` from word `address` on makes:
/// chunk `k` of four bytes is the little-endian word for fuse `address + k`.
pub open spec fn planned_fuse_writes(address: u32, data: Seq<u8>, lock: bool) -> Seq<FuseWrite> {
    Seq::new(
        whole_words(data.len() as int) as nat,
        |k: int| FuseWrite { address: (address + k) as u32, word: le_word_at(data, k), lock },
    )
}

/// The next operation of a fuse programming run.
#[derive(Debug, PartialEq, Eq, Clone, Copy)]
pub enum FuseStep {
    /// Program this fuse word through the ROM API.
    Write(FuseWrite),
    /// Programming ended with this outcome.
    Done(Result<(), OtpError>),
}

/// Programming the fuses of a register, one word after another, stopping at
/// the first word the ROM API fails to program.
pub struct FuseProgramming {
    writes: Vec<FuseWrite>,
    done: usize,
    finished: bool,
}

impl FuseProgramming {
    /// The fuse writes of the run, in order.
    pub closed spec fn spec_writes(&self) -> Seq<FuseWrite> {
        self.writes@
    }

    /// How many writes the ROM API reported successful.
    pub closed spec fn spec_done(&self) -> nat {
        self.done as nat
    }

    /// Whether the run has ended.
    pub closed spec fn spec_finished(&self) -> bool {
        self.finished
    }

    pub closed spec fn wf(&self) -> bool {
        &&& self.done <= self.writes@.len()
        &&& !self.finished ==> self.done < self.writes@.len()
    }

    /// Starts writing `data` to the fuses from word `address` on through
    /// `iface`: refused at once when the interface was not opened for
    /// writing, done at once when `data` holds no whole word, and otherwise
    /// the first word is programmed first.
    pub fn start(iface: &OtpInterface, address: u32, size_bits: u32, data: &[u8]) -> (r: (Self, FuseStep))
        requires
            iface.spec_allow_write() ==> address + whole_words(data@.len() as int) <= u32::MAX + 1,
        ensures
            r.0.wf(),
            r.0.spec_done() == 0,
            !iface.spec_allow_write() ==> r.1 == FuseStep::Done(Err(OtpError::WriteNotAllowed))
                && r.0.spec_finished() && r.0.spec_writes().len() == 0,
            iface.spec_allow_write() ==> r.0.spec_writes() == planned_fuse_writes(
                address,
                data@,
                iface.spec_mode_locked(),
            ),
            iface.spec_allow_write() && whole_words(data@.len() as int) == 0 ==> r.1 == FuseStep::Done(
                Ok(()),
            ) && r.0.spec_finished(),
            iface.spec_allow_write() && whole_words(data@.len() as int) > 0 ==> r.1 == FuseStep::Write(
                r.0.spec_writes()[0],
            ) && !r.0.spec_finished(),
    {
        match iface.write_register(address, size_bits, data) {
            Err(e) => (FuseProgramming { writes: Vec::new(), done: 0, finished: true }, FuseStep::Done(Err(e))),
            Ok(writes) => {
                assert(writes@ =~= planned_fuse_writes(address, data@, iface.spec_mode_locked()));
                if writes.len() == 0 {
                    (FuseProgramming { writes, done: 0, finished: true }, FuseStep::Done(Ok(())))
                } else {
                    let first = writes[0];
                    (FuseProgramming { writes, done: 0, finished: false }, FuseStep::Write(first))
                }
            },
        }
    }

    /// Takes the ROM API's outcome of the last write and gives the next step:
    /// a failure ends the run with that error and no further word is written;
    /// a success moves on to the next word, and after the last one the run
    /// ends successfully, every word having been programmed.
    pub fn on_written(&mut self, result: Result<(), RomError>) -> (s: FuseStep)
        requires
            old(self).wf(),
            !old(self).spec_finished(),
        ensures
            final(self).wf(),
            final(self).spec_writes() == old(self).spec_writes(),
            match result {
                Err(e) => {
                    &&& s == FuseStep::Done(Err(OtpError::Inner(e)))
                    &&& final(self).spec_finished()
                    &&& final(self).spec_done() == old(self).spec_done()
                },
                Ok(_) => {
                    &&& final(self).spec_done() == old(self).spec_done() + 1
                    &&& if final(self).spec_done() < old(self).spec_writes().len() {
                        s == FuseStep::Write(old(self).spec_writes()[final(self).spec_done() as int])
                            && !final(self).spec_finished()
                    } else {
                        s == FuseStep::Done(Ok(())) && final(self).spec_finished()
                    }
                },
            },
            s == FuseStep::Done(Ok(())) ==> final(self).spec_done() == final(self).spec_writes().len(),
    {
        match result {
            Err(e) => {
                self.finished = true;
                FuseStep::Done(Err(OtpError::Inner(e)))
            },
            Ok(_) => {
                let n = self.writes.len();
                self.done = self.done + 1;
                if self.done < n {
                    FuseStep::Write(self.writes[self.done])
                } else {
                    self.finished = true;
                    FuseStep::Done(Ok(()))
                }
            },
        }
    }
}

/// Stores the little-endian bytes of `words[k]` in chunk `k` of `data`,
/// leaving a trailing partial chunk as it was.
pub fn fill_from_words(data: &mut Vec<u8>, words: &[u32])
    requires
        words@.len() == whole_words(old(data)@.len() as int),
    ensures
        final(data)@.len() == old(data)@.len(),
        forall|k: int|
            0 <= k < 4 * words@.len() ==> final(data)@[k] == le_byte(words@[k / 4], k % 4),
        forall|k: int|
            4 * words@.len() <= k < old(data)@.len() ==> final(data)@[k] == old(data)@[k],
{
    let n = words.len();
    let len = data.len();
    let mut i: usize = 0;
    while i < n
        invariant
            n == words@.len(),
            n == whole_words(old(data)@.len() as int),
            data@.len() == old(data)@.len(),
            len == data@.len(),
            i <= n,
            forall|k: int| 0 <= k < 4 * i ==> data@[k] == le_byte(words@[k / 4], k % 4),
            forall|k: int| 4 * i <= k < data@.len() ==> data@[k] == old(data)@[k],
        decreases n - i,
    {
        let w = words[i];
        assert(4 * i + 3 < len) by (nonlinear_arith)
            requires
                i < n,
                n == len / 4,
        ;
        data.set(4 * i, byte_of_word(w, 0));
        data.set(4 * i + 1, byte_of_word(w, 1));
        data.set(4 * i + 2, byte_of_word(w, 2));
        data.set(4 * i + 3, byte_of_word(w, 3));
        i = i + 1;
    }
}

/// The shadow registers, addressed by OTP word index.
pub struct ShadowRegisters {
    device: ShadowInterface,
}

impl ShadowRegisters {
    pub closed spec fn spec_device(&self) -> ShadowInterface {
        self.device
    }

    /// Opens the shadow registers.
    pub fn new() -> Self {
        Self { device: ShadowInterface { _private: () } }
    }

    /// The interface through which the registers are accessed.
    pub fn device(&mut self) -> (d: &mut ShadowInterface)
        ensures
            *d == old(self).spec_device(),
            final(self).spec_device() == *final(d),
    {
        &mut self.device
    }
}

/// The OTP fuses, addressed by OTP word index.
pub struct OtpFuses {
    device: OtpInterface,
}

impl OtpFuses {
    pub closed spec fn spec_device(&self) -> OtpInterface {
        self.device
    }

    /// Opens the fuses for reading only.
    pub fn readonly() -> (f: Self)
        ensures
            !f.spec_device().spec_allow_write(),
            !f.spec_device().spec_mode_locked(),
    {
        Self { device: OtpInterface { allow_write: false, mode_locked: false } }
    }

    /// Opens the fuses for programming; `mode_locked` locks each word written.
    pub fn writable(mode_locked: bool) -> (f: Self)
        ensures
            f.spec_device().spec_allow_write(),
            f.spec_device().spec_mode_locked() == mode_locked,
    {
        Self { device: OtpInterface { allow_write: true, mode_locked } }
    }

    /// The interface through which the fuses are accessed.
    pub fn device(&mut self) -> (d: &mut OtpInterface)
        ensures
            *d == old(self).spec_device(),
            final(self).spec_device() == *final(d),
    {
        &mut self.device
    }
}

} // verus!
