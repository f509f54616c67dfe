//! Hexadecimal text and little-endian words.

use vstd::prelude::*;
use crate::bytes::{le_word_at, word_from_le};

verus! {

/// `String::push` from std: appends one character to the string.
#[verifier::external_body]
pub(crate) fn push_char(s: &mut String, c: char)
    ensures
        final(s)@ == old(s)@.push(c),
{
    s.push(c)
}

/// The characters of `s`, in order.
pub fn chars_of(s: &str) -> (v: Vec<char>)
    ensures
        v@ == s@,
{
    let mut v: Vec<char> = Vec::new();
    for c in it: s.chars()
        invariant
            v@ == it.seq().take(it.index() as int),
    {
        v.push(c);
    }
    v
}

/// The lower-case hexadecimal digit for `n < 16`.
pub open spec fn spec_hex_digit(n: u8) -> char {
    if n < 10 {
        (48 + n) as char
    } else {
        (87 + n) as char
    }
}

/// The value of a hexadecimal digit of either case.
pub open spec fn spec_hex_value(c: char) -> Option<u8> {
    if '0' <= c <= '9' {
        Some((c as u32 - 48) as u8)
    } else if 'a' <= c <= 'f' {
        Some((c as u32 - 87) as u8)
    } else if 'A' <= c <= 'F' {
        Some((c as u32 - 55) as u8)
    } else {
        None
    }
}

/// Lower-case hexadecimal text of `b`: two digits per byte, high nibble first.
pub open spec fn spec_generate_hex(b: Seq<u8>) -> Seq<char> {
    Seq::new(
        2 * b.len(),
        |k: int|
            if k % 2 == 0 {
                spec_hex_digit(b[k / 2] >> 4u8)
            } else {
                spec_hex_digit(b[k / 2] & 15u8)
            },
    )
}

/// Why text is not hexadecimal.
#[derive(Debug, PartialEq, Eq, Structural, Clone, Copy)]
pub enum HexError {
    /// The text has an odd number of characters.
    OddLength,
    /// A character is not a hexadecimal digit.
    InvalidCharacter,
}

/// Every character of `s` is a hexadecimal digit.
pub open spec fn all_hex(s: Seq<char>) -> bool {
    forall|i: int| 0 <= i < s.len() ==> (#[trigger] spec_hex_value(s[i])) is Some
}

/// The bytes of hexadecimal text `s`: two digits per byte, high nibble first.
pub open spec fn spec_parse_hex(s: Seq<char>) -> Result<Seq<u8>, HexError> {
    if s.len() % 2 != 0 {
        Err(HexError::OddLength)
    } else if !all_hex(s) {
        Err(HexError::InvalidCharacter)
    } else {
        Ok(
            Seq::new(
                s.len() / 2,
                |i: int|
                    (spec_hex_value(s[2 * i])->0 * 16 + spec_hex_value(s[2 * i + 1])->0) as u8,
            ),
        )
    }
}

fn hex_digit(n: u8) -> (c: char)
    requires
        n < 16,
    ensures
        c == spec_hex_digit(n),
{
    if n < 10 {
        (48 + n) as char
    } else {
        (87 + n) as char
    }
}

fn hex_value(c: char) -> (r: Option<u8>)
    ensures
        r == spec_hex_value(c),
{
    if '0' <= c && c <= '9' {
        Some((c as u32 - 48) as u8)
    } else if 'a' <= c && c <= 'f' {
        Some((c as u32 - 87) as u8)
    } else if 'A' <= c && c <= 'F' {
        Some((c as u32 - 55) as u8)
    } else {
        None
    }
}

/// Lower-case hexadecimal text of `bytes`, two digits per byte.
pub fn generate_hex(bytes: &[u8]) -> (s: String)
    ensures
        s@ == spec_generate_hex(bytes@),
{
    let mut s = String::new();
    let n = bytes.len();
    let mut i: usize = 0;
    while i < n
        invariant
            n == bytes@.len(),
            i <= n,
            s@ == spec_generate_hex(bytes@.take(i as int)),
        decreases n - i,
    {
        let b = bytes[i];
        assert(b >> 4u8 < 16) by (bit_vector);
        assert(b & 15u8 < 16) by (bit_vector);
        push_char(&mut s, hex_digit(b >> 4u8));
        push_char(&mut s, hex_digit(b & 15u8));
        assert(s@ =~= spec_generate_hex(bytes@.take(i + 1)));
        i = i + 1;
    }
    assert(bytes@.take(n as int) =~= bytes@);
    s
}

/// Parses hexadecimal text of either case into bytes, two digits per byte.
pub fn parse_hex(text: &str) -> (r: Result<Vec<u8>, HexError>)
    ensures
        match spec_parse_hex(text@) {
            Ok(b) => r is Ok && r->Ok_0@ == b,
            Err(e) => r == Err::<Vec<u8>, HexError>(e),
        },
{
    let s = chars_of(text);
    parse_hex_chars(&s)
}

/// Parses hexadecimal digits of either case into bytes, two digits per byte.
pub fn parse_hex_chars(s: &[char]) -> (r: Result<Vec<u8>, HexError>)
    ensures
        match spec_parse_hex(s@) {
            Ok(b) => r is Ok && r->Ok_0@ == b,
            Err(e) => r == Err::<Vec<u8>, HexError>(e),
        },
{
    let n = s.len();
    if n % 2 != 0 {
        return Err(HexError::OddLength);
    }
    let mut out: Vec<u8> = Vec::new();
    let mut i: usize = 0;
    while i < n / 2
        invariant
            n == s@.len(),
            n % 2 == 0,
            i <= n / 2,
            out@.len() == i,
            forall|j: int| 0 <= j < 2 * i ==> (#[trigger] spec_hex_value(s@[j])) is Some,
            forall|j: int|
                0 <= j < i ==> out@[j] == (spec_hex_value(s@[2 * j])->0 * 16 + spec_hex_value(
                    s@[2 * j + 1],
                )->0) as u8,
        decreases n / 2 - i,
    {
        let hi = hex_value(s[2 * i]);
        let lo = hex_value(s[2 * i + 1]);
        match (hi, lo) {
            (Some(h), Some(l)) => {
                out.push(h * 16 + l);
            },
            _ => {
                assert(!all_hex(s@)) by {
                    if hi is None {
                        assert(spec_hex_value(s@[2 * i as int]) is None);
                    } else {
                        assert(spec_hex_value(s@[2 * i + 1]) is None);
                    }
                }
                return Err(HexError::InvalidCharacter);
            },
        }
        i = i + 1;
    }
    assert(out@ =~= spec_parse_hex(s@)->Ok_0);
    Ok(out)
}

/// The little-endian words of `bytes`, one per whole chunk of four bytes.
pub fn bytes_to_u32_le(bytes: &[u8]) -> (v: Vec<u32>)
    ensures
        v@.len() == bytes@.len() / 4,
        forall|i: int| 0 <= i < v@.len() ==> v@[i] == le_word_at(bytes@, i),
{
    let len = bytes.len();
    let n = len / 4;
    let mut v: Vec<u32> = Vec::new();
    let mut i: usize = 0;
    while i < n
        invariant
            len == bytes@.len(),
            n == len / 4,
            i <= n,
            v@.len() == i,
            forall|j: int| 0 <= j < i ==> v@[j] == le_word_at(bytes@, j),
        decreases n - i,
    {
        assert(4 * i + 3 < len) by (nonlinear_arith)
            requires
                i < n,
                n == len / 4,
        ;
        v.push(word_from_le(bytes[4 * i], bytes[4 * i + 1], bytes[4 * i + 2], bytes[4 * i + 3]));
        i = i + 1;
    }
    v
}

/// Parsing generated hexadecimal text gives the bytes back.
pub proof fn lemma_hex_roundtrip(b: Seq<u8>)
    ensures
        spec_parse_hex(spec_generate_hex(b)) == Ok::<Seq<u8>, HexError>(b),
{
    let s = spec_generate_hex(b);
    assert forall|k: int| 0 <= k < s.len() implies (#[trigger] spec_hex_value(s[k])) is Some by {
        let x = b[k / 2];
        assert(x >> 4u8 < 16) by (bit_vector);
        assert(x & 15u8 < 16) by (bit_vector);
    }
    assert forall|i: int| 0 <= i < b.len() implies (spec_hex_value(s[2 * i])->0 * 16
        + spec_hex_value(s[2 * i + 1])->0) as u8 == b[i] by {
        let x = b[i];
        assert((2 * i) / 2 == i && (2 * i) % 2 == 0);
        assert((2 * i + 1) / 2 == i && (2 * i + 1) % 2 == 1);
        assert(x >> 4u8 < 16) by (bit_vector);
        assert(x & 15u8 < 16) by (bit_vector);
        assert(((x >> 4u8) * 16 + (x & 15u8)) as u8 == x) by (bit_vector);
    }
    assert(spec_parse_hex(s)->Ok_0 =~= b);
}

} // verus!
