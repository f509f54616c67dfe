//! Values held by the OTP shadow registers.
//!
//! The shadow registers are a memory-mapped copy of a handful of OTP fuse
//! words. Reading and writing them is a volatile access at the addresses below;
//! this module holds the values and the bit logic on them.

use vstd::prelude::*;
use crate::bytes::{byte_of_word, le_byte, le_bytes_of_words, le_word_at, lemma_le_bytes_of_word, lemma_le_word_of_bytes, word_from_le};

verus! {

/// Address of the RKTH shadow registers (eight words).
pub const RKTH_SHADOW_ADDR: usize = 0x401301E0;

/// OTP word index of the first RKTH fuse.
pub const RKTH_OTP_ADDR: u32 = 0x1E0;

/// Address of the OTP master key shadow registers (eight words).
pub const OTP_KEY_SHADOW_ADDR: usize = 0x401301C0;

/// Address of the BOOT_CFG0 shadow register.
pub const BOOT0_SHADOW_ADDR: usize = 0x40130180;

/// Address of the BOOT_CFG1 shadow register.
pub const BOOT1_SHADOW_ADDR: usize = 0x40130184;

/// A Root Key Table Hash.
#[derive(PartialEq, Eq, Debug, Clone, Copy)]
pub struct Rkth(pub [u8; 32]);

/// One fuse word to program: OTP word index, value and whether to lock it.
#[derive(PartialEq, Eq, Structural, Debug, Clone, Copy)]
pub struct FuseWrite {
    pub address: u32,
    pub word: u32,
    pub lock: bool,
}

/// The words of a 32-byte value, each taken little-endian from four bytes.
pub open spec fn words_of_bytes32(b: Seq<u8>) -> Seq<u32> {
    Seq::new(8, |i: int| le_word_at(b, i))
}

impl Rkth {
    /// The eight fuse words that hold this hash, word `i` from bytes `4i..4i+4`.
    pub open spec fn spec_words(self) -> Seq<u32> {
        words_of_bytes32(self.0@)
    }

    /// Assembles the hash from the eight RKTH fuse words as read from OTP.
    pub fn from_fuse_words(words: &[u32; 8]) -> (r: Self)
        ensures
            r.0@ == le_bytes_of_words(words@),
    {
        let mut data = [0u8; 32];
        let mut i: usize = 0;
        while i < 8
            invariant
                0 <= i <= 8,
                forall|k: int| 0 <= k < 4 * i ==> data[k] == le_byte(words@[k / 4], k % 4),
            decreases 8 - i,
        {
            let w = words[i];
            data[4 * i] = byte_of_word(w, 0);
            data[4 * i + 1] = byte_of_word(w, 1);
            data[4 * i + 2] = byte_of_word(w, 2);
            data[4 * i + 3] = byte_of_word(w, 3);
            i = i + 1;
        }
        assert(data@ =~= le_bytes_of_words(words@));
        Rkth(data)
    }

    /// The eight fuse words holding this hash.
    pub fn to_fuse_words(&self) -> (w: [u32; 8])
        ensures
            w@ == self.spec_words(),
    {
        let mut w = [0u32; 8];
        let mut i: usize = 0;
        while i < 8
            invariant
                0 <= i <= 8,
                forall|k: int| 0 <= k < i ==> w[k] == le_word_at(self.0@, k),
            decreases 8 - i,
        {
            w[i] = word_from_le(self.0[4 * i], self.0[4 * i + 1], self.0[4 * i + 2], self.0[4 * i + 3]);
            i = i + 1;
        }
        assert(w@ =~= self.spec_words());
        w
    }

    /// The fuse writes that burn this hash: word `i` goes to OTP word `0x1E0 + i`.
    pub fn fuse_writes(&self, lock: bool) -> (v: Vec<FuseWrite>)
        ensures
            v@.len() == 8,
            forall|i: int|
                0 <= i < 8 ==> v@[i] == (FuseWrite {
                    address: (RKTH_OTP_ADDR + i) as u32,
                    word: self.spec_words()[i],
                    lock,
                }),
    {
        let words = self.to_fuse_words();
        let mut v: Vec<FuseWrite> = Vec::new();
        let mut i: usize = 0;
        while i < 8
            invariant
                0 <= i <= 8,
                words@ == self.spec_words(),
                v@.len() == i,
                forall|k: int|
                    0 <= k < i ==> v@[k] == (FuseWrite {
                        address: (RKTH_OTP_ADDR + k) as u32,
                        word: self.spec_words()[k],
                        lock,
                    }),
            decreases 8 - i,
        {
            v.push(FuseWrite { address: RKTH_OTP_ADDR + i as u32, word: words[i], lock });
            i = i + 1;
        }
        v
    }
}

/// Converting a hash to fuse words and back gives the same hash.
pub proof fn lemma_rkth_fuse_roundtrip(r: Rkth)
    ensures
        le_bytes_of_words(r.spec_words()) == r.0@,
{
    let w = r.spec_words();
    assert forall|k: int| 0 <= k < 32 implies #[trigger] le_bytes_of_words(w)[k] == r.0@[k] by {
        let i = k / 4;
        lemma_le_bytes_of_word(r.0@[4 * i], r.0@[4 * i + 1], r.0@[4 * i + 2], r.0@[4 * i + 3]);
    }
    assert(le_bytes_of_words(w) =~= r.0@);
}

/// Converting fuse words to a hash and back gives the same words.
pub proof fn lemma_fuse_words_roundtrip(w: Seq<u32>)
    requires
        w.len() == 8,
    ensures
        words_of_bytes32(le_bytes_of_words(w)) == w,
{
    let b = le_bytes_of_words(w);
    assert forall|i: int| 0 <= i < 8 implies #[trigger] words_of_bytes32(b)[i] == w[i] by {
        assert(b[4 * i] == le_byte(w[i], 0));
        assert(b[4 * i + 1] == le_byte(w[i], 1));
        assert(b[4 * i + 2] == le_byte(w[i], 2));
        assert(b[4 * i + 3] == le_byte(w[i], 3));
        lemma_le_word_of_bytes(w[i]);
    }
    assert(words_of_bytes32(b) =~= w);
}

/// The OTP master key, as held by its shadow registers.
#[derive(PartialEq, Eq, Debug, Clone, Copy)]
pub struct Otp(pub [u8; 32]);

/// The BOOT_CFG0 shadow register.
#[derive(PartialEq, Eq, Structural, Debug, Clone, Copy)]
pub struct Boot0(pub u32);

impl Boot0 {
    /// The two SECURE_BOOT_EN bits (bits 21:20) of the register.
    pub open spec fn secure_boot_bits(self) -> u32 {
        (self.0 >> 20u32) & 3u32
    }

    /// Any of the patterns 0b01, 0b10 and 0b11 in bits 21:20 enables secure boot.
    pub fn secure_boot(&self) -> (r: bool)
        ensures
            r == (self.secure_boot_bits() != 0),
    {
        (self.0 >> 20u32) & 0b11u32 != 0b00u32
    }
}

/// The BOOT_CFG1 shadow register.
#[derive(PartialEq, Eq, Structural, Debug, Clone, Copy)]
pub struct Boot1(pub u32);

/// The BOOT_CFG1 value after configuring the QSPI reset pin on `old`.
pub open spec fn spec_qspi_reset_pin(old: u32, port: u8, pin: u8) -> u32 {
    (old & (0x1FFu32 << 14u32)) | (1u32 << 14u32) | ((port as u32) << 15u32) | ((pin as u32)
        << 18u32)
}

impl Boot1 {
    /// Configures the QSPI reset pin: keeps bits 22:14 of the register, clears
    /// all others, sets the enable bit 14 and ors in `port << 15` and `pin << 18`.
    pub fn set_qspi_reset_pin(&mut self, port: u8, pin: u8)
        ensures
            final(self).0 == spec_qspi_reset_pin(old(self).0, port, pin),
    {
        self.0 = self.0 & (0b1_1111_1111u32 << 14u32);
        self.0 = self.0 | (1u32 << 14u32);
        self.0 = self.0 | ((port as u32) << 15u32);
        self.0 = self.0 | ((pin as u32) << 18u32);
    }
}

/// After configuring the QSPI reset pin, the enable bit 14 is set and no bit
/// above 25 is.
pub proof fn lemma_qspi_reset_pin_bits(old: u32, port: u8, pin: u8)
    ensures
        spec_qspi_reset_pin(old, port, pin) & (1u32 << 14u32) != 0,
        spec_qspi_reset_pin(old, port, pin) >> 26u32 == 0,
{
    let p = port as u32;
    let q = pin as u32;
    assert(p < 256 && q < 256);
    assert(((old & (0x1FFu32 << 14u32)) | (1u32 << 14u32) | (p << 15u32) | (q << 18u32)) & (1u32
        << 14u32) != 0) by (bit_vector);
    assert(((old & (0x1FFu32 << 14u32)) | (1u32 << 14u32) | (p << 15u32) | (q << 18u32)) >> 26u32
        == 0) by (bit_vector)
        requires
            p < 256,
            q < 256,
    ;
}

} // verus!
