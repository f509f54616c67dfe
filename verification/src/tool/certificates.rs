//! Root Key Table Hash files and the output of the certificate tooling.

use vstd::prelude::*;
use crate::bytes::le_word_at;
use crate::tool::paths::{spec_with_extension, with_extension};
use crate::tool::text::{join3, strings_of};
use crate::tool::hex::{
    bytes_to_u32_le, chars_of, generate_hex, parse_hex_chars, spec_generate_hex, spec_parse_hex,
    HexError,
};

verus! {

/// A Root Key Table Hash.
#[derive(PartialEq, Eq, Clone, Copy, Debug)]
pub struct Rkth(pub [u8; 32]);

/// Why text does not hold a Root Key Table Hash.
#[derive(Debug, PartialEq, Eq, Structural, Clone, Copy)]
pub enum RkthError {
    /// The text is not hexadecimal.
    Hex(HexError),
    /// The text does not hold exactly 32 bytes.
    Size,
    /// The tool output has no line mentioning the hash.
    Missing,
}

/// The hash that hexadecimal text `s` denotes.
pub open spec fn spec_rkth_from_hex(s: Seq<char>) -> Result<Seq<u8>, RkthError> {
    match spec_parse_hex(s) {
        Err(e) => Err(RkthError::Hex(e)),
        Ok(b) => if b.len() == 32 {
            Ok(b)
        } else {
            Err(RkthError::Size)
        },
    }
}

/// The result of a hash parse, seen as the bytes of the hash.
pub open spec fn rkth_result_view(r: Result<Rkth, RkthError>) -> Result<Seq<u8>, RkthError> {
    match r {
        Ok(h) => Ok(h.0@),
        Err(e) => Err(e),
    }
}

impl Rkth {
    /// Lower-case hexadecimal text of the hash.
    pub fn as_hex(&self) -> (s: String)
        ensures
            s@ == spec_generate_hex(self.0@),
    {
        generate_hex(&self.0)
    }

    /// Parses a hash from hexadecimal text of exactly 64 digits.
    pub fn from_hex(text: &str) -> (r: Result<Self, RkthError>)
        ensures
            rkth_result_view(r) == spec_rkth_from_hex(text@),
    {
        let s = chars_of(text);
        Self::from_hex_chars(&s)
    }

    /// Parses a hash from hexadecimal digits, exactly 64 of them.
    pub fn from_hex_chars(s: &[char]) -> (r: Result<Self, RkthError>)
        ensures
            rkth_result_view(r) == spec_rkth_from_hex(s@),
    {
        let bytes = match parse_hex_chars(s) {
            Ok(b) => b,
            Err(e) => return Err(RkthError::Hex(e)),
        };
        if bytes.len() != 32 {
            return Err(RkthError::Size);
        }
        let mut data = [0u8; 32];
        let mut i: usize = 0;
        while i < 32
            invariant
                bytes@.len() == 32,
                i <= 32,
                forall|k: int| 0 <= k < i ==> data[k] == bytes@[k],
            decreases 32 - i,
        {
            data[i] = bytes[i];
            i = i + 1;
        }
        assert(data@ =~= bytes@);
        Ok(Rkth(data))
    }

    /// The hash as eight little-endian words.
    pub fn as_u32_le(&self) -> (v: Vec<u32>)
        ensures
            v@.len() == 8,
            forall|i: int| 0 <= i < 8 ==> v@[i] == le_word_at(self.0@, i),
    {
        bytes_to_u32_le(&self.0)
    }
}

/// Writing a hash as text and parsing that text gives the hash back.
pub proof fn lemma_rkth_hex_roundtrip(h: Rkth)
    ensures
        spec_rkth_from_hex(spec_generate_hex(h.0@)) == Ok::<Seq<u8>, RkthError>(h.0@),
{
    crate::tool::hex::lemma_hex_roundtrip(h.0@);
}

/// Whether `c` has the Unicode White_Space property.
pub open spec fn spec_is_whitespace(c: char) -> bool {
    ||| '\u{9}' <= c <= '\u{d}'
    ||| c == ' '
    ||| c == '\u{85}'
    ||| c == '\u{a0}'
    ||| c == '\u{1680}'
    ||| '\u{2000}' <= c <= '\u{200a}'
    ||| c == '\u{2028}'
    ||| c == '\u{2029}'
    ||| c == '\u{202f}'
    ||| c == '\u{205f}'
    ||| c == '\u{3000}'
}

fn is_whitespace(c: char) -> (r: bool)
    ensures
        r == spec_is_whitespace(c),
{
    ('\u{9}' <= c && c <= '\u{d}') || c == ' ' || c == '\u{85}' || c == '\u{a0}' || c == '\u{1680}'
        || ('\u{2000}' <= c && c <= '\u{200a}') || c == '\u{2028}' || c == '\u{2029}' || c
        == '\u{202f}' || c == '\u{205f}' || c == '\u{3000}'
}

/// The marker that introduces the hash in the tool output.
pub open spec fn rkth_marker() -> Seq<char> {
    seq!['R', 'K', 'T', 'H']
}

/// The prefix stripped from the line holding the hash.
pub open spec fn rkth_prefix() -> Seq<char> {
    seq!['R', 'K', 'T', 'H', ':', ' ']
}

/// `s[start..end]` contains `pat` somewhere.
pub open spec fn contains_at(s: Seq<char>, start: int, end: int, pat: Seq<char>) -> bool {
    exists|i: int| start <= i && i + pat.len() <= end && #[trigger] s.subrange(i, i + pat.len()) == pat
}

/// Index of the first line feed at or after `start`, or the length of `s`.
pub open spec fn line_end(s: Seq<char>, start: int) -> int
    decreases s.len() - start,
{
    if start >= s.len() {
        s.len() as int
    } else if s[start] == '\n' {
        start
    } else {
        line_end(s, start + 1)
    }
}

/// The bounds of the first line from `start` on that contains the marker.
pub open spec fn rkth_line(s: Seq<char>, start: int) -> Option<(int, int)>
    decreases s.len() - start,
{
    if start < 0 || start >= s.len() {
        None
    } else {
        let e = line_end(s, start);
        if contains_at(s, start, e, rkth_marker()) {
            Some((start, e))
        } else if e >= s.len() {
            None
        } else {
            proof {
                lemma_line_end_bounds(s, start);
            }
            rkth_line(s, e + 1)
        }
    }
}

/// The end of a line lies between its start and the end of the text.
pub proof fn lemma_line_end_bounds(s: Seq<char>, start: int)
    requires
        0 <= start <= s.len(),
    ensures
        start <= line_end(s, start) <= s.len(),
    decreases s.len() - start,
{
    if start < s.len() && s[start] != '\n' {
        lemma_line_end_bounds(s, start + 1);
    }
}

/// The first index in `[a, b)` of a character that is not white space, or `b`.
pub open spec fn trim_start_at(s: Seq<char>, a: int, b: int) -> int
    decreases b - a,
{
    if a >= b {
        b
    } else if spec_is_whitespace(s[a]) {
        trim_start_at(s, a + 1, b)
    } else {
        a
    }
}

/// One past the last index in `[a, b)` of a character that is not white space, or `a`.
pub open spec fn trim_end_at(s: Seq<char>, a: int, b: int) -> int
    decreases b - a,
{
    if a >= b {
        a
    } else if spec_is_whitespace(s[b - 1]) {
        trim_end_at(s, a, b - 1)
    } else {
        b
    }
}

/// The start of `s[a..b]` after stripping the prefix "RKTH: " as often as it occurs.
pub open spec fn strip_prefixes_at(s: Seq<char>, a: int, b: int) -> int
    decreases b - a,
{
    if a + 6 <= b && s.subrange(a, a + 6) == rkth_prefix() {
        strip_prefixes_at(s, a + 6, b)
    } else {
        a
    }
}

/// The hash text in the tool output: the first line that mentions "RKTH",
/// trimmed of white space and of leading "RKTH: " prefixes.
pub open spec fn spec_rkth_text(s: Seq<char>) -> Option<Seq<char>> {
    match rkth_line(s, 0) {
        None => None,
        Some((a, b)) => {
            let a1 = trim_start_at(s, a, b);
            let b1 = trim_end_at(s, a1, b);
            let a2 = strip_prefixes_at(s, a1, b1);
            Some(s.subrange(a2, b1))
        },
    }
}

/// The hash reported in the tool output.
pub open spec fn spec_rkth_from_output(s: Seq<char>) -> Result<Seq<u8>, RkthError> {
    match spec_rkth_text(s) {
        None => Err(RkthError::Missing),
        Some(t) => spec_rkth_from_hex(t),
    }
}

fn matches_at(s: &[char], i: usize, pat: &[char]) -> (r: bool)
    requires
        i + pat@.len() <= s@.len(),
    ensures
        r == (s@.subrange(i as int, i + pat@.len()) == pat@),
{
    let slen = s.len();
    let n = pat.len();
    let mut k: usize = 0;
    while k < n
        invariant
            slen == s@.len(),
            n == pat@.len(),
            i + n <= s@.len(),
            k <= n,
            forall|j: int| 0 <= j < k ==> s@[i + j] == pat@[j],
        decreases n - k,
    {
        if s[i + k] != pat[k] {
            assert(s@.subrange(i as int, i + n)[k as int] != pat@[k as int]);
            return false;
        }
        k = k + 1;
    }
    assert(s@.subrange(i as int, i + n) =~= pat@);
    true
}

fn contains_in(s: &[char], start: usize, end: usize, pat: &[char]) -> (r: bool)
    requires
        start <= end <= s@.len(),
        pat@.len() > 0,
    ensures
        r == contains_at(s@, start as int, end as int, pat@),
{
    let n = pat.len();
    if end - start < n {
        return false;
    }
    let mut i = start;
    while i <= end - n
        invariant
            n == pat@.len(),
            n > 0,
            start <= i,
            i <= end - n + 1,
            end <= s@.len(),
            start + n <= end,
            forall|j: int| start <= j < i ==> #[trigger] s@.subrange(j, j + n) != pat@,
        decreases end - i,
    {
        if matches_at(s, i, pat) {
            return true;
        }
        i = i + 1;
    }
    false
}

fn find_line_end(s: &[char], start: usize) -> (e: usize)
    requires
        start <= s@.len(),
    ensures
        e == line_end(s@, start as int),
        start <= e <= s@.len(),
{
    let mut i = start;
    while i < s.len()
        invariant
            start <= i <= s@.len(),
            line_end(s@, start as int) == line_end(s@, i as int),
        decreases s@.len() - i,
    {
        if s[i] == '\n' {
            return i;
        }
        i = i + 1;
    }
    i
}

fn find_rkth_line(s: &[char], marker: &[char]) -> (r: Option<(usize, usize)>)
    requires
        marker@ == rkth_marker(),
    ensures
        match r {
            None => rkth_line(s@, 0) is None,
            Some((x, y)) => rkth_line(s@, 0) == Some((x as int, y as int)) && x <= y <= s@.len(),
        },
{
    let len = s.len();
    let mut start: usize = 0;
    while start < len
        invariant
            len == s@.len(),
            start <= len,
            marker@ == rkth_marker(),
            rkth_line(s@, 0) == rkth_line(s@, start as int),
        decreases len - start,
    {
        let e = find_line_end(s, start);
        if contains_in(s, start, e, marker) {
            return Some((start, e));
        }
        if e >= len {
            return None;
        }
        start = e + 1;
    }
    None
}

/// Finds the hash text in the output of the certificate block export: the
/// first line mentioning "RKTH", trimmed, with leading "RKTH: " removed.
pub fn rkth_text(s: &[char]) -> (r: Option<Vec<char>>)
    ensures
        match spec_rkth_text(s@) {
            None => r is None,
            Some(t) => r is Some && r->0@ == t,
        },
{
    let marker = ['R', 'K', 'T', 'H'];
    let prefix = ['R', 'K', 'T', 'H', ':', ' '];
    assert(marker@ =~= rkth_marker());
    assert(prefix@ =~= rkth_prefix());
    let (a, b) = match find_rkth_line(s, marker.as_slice()) {
        None => return None,
        Some(line) => line,
    };
    let mut a1 = a;
    while a1 < b && is_whitespace(s[a1])
        invariant
            a <= a1 <= b <= s@.len(),
            trim_start_at(s@, a as int, b as int) == trim_start_at(s@, a1 as int, b as int),
        decreases b - a1,
    {
        a1 = a1 + 1;
    }
    let mut b1 = b;
    while b1 > a1 && is_whitespace(s[b1 - 1])
        invariant
            a1 <= b1 <= b <= s@.len(),
            trim_end_at(s@, a1 as int, b as int) == trim_end_at(s@, a1 as int, b1 as int),
        decreases b1 - a1,
    {
        b1 = b1 - 1;
    }
    let mut a2 = a1;
    while b1 - a2 >= 6 && matches_at(s, a2, prefix.as_slice())
        invariant
            a1 <= a2 <= b1 <= s@.len(),
            prefix@ == rkth_prefix(),
            strip_prefixes_at(s@, a1 as int, b1 as int) == strip_prefixes_at(s@, a2 as int, b1 as int),
        decreases b1 - a2,
    {
        a2 = a2 + 6;
    }
    let mut t: Vec<char> = Vec::new();
    let mut k = a2;
    while k < b1
        invariant
            a2 <= k <= b1 <= s@.len(),
            t@ == s@.subrange(a2 as int, k as int),
        decreases b1 - k,
    {
        t.push(s[k]);
        assert(t@ =~= s@.subrange(a2 as int, k + 1));
        k = k + 1;
    }
    Some(t)
}

/// Reads the hash from the output of the certificate block export.
pub fn rkth_from_output(output: &str) -> (r: Result<Rkth, RkthError>)
    ensures
        rkth_result_view(r) == spec_rkth_from_output(output@),
{
    let s = chars_of(output);
    match rkth_text(&s) {
        None => Err(RkthError::Missing),
        Some(t) => Rkth::from_hex_chars(&t),
    }
}


/// Reads the hash from the output of the certificate block export, and gives
/// the text the hash file is to hold: the hash's canonical lower-case
/// hexadecimal form, which parses back to the same hash.
pub fn rkth_file_from_output(output: &str) -> (r: Result<(Rkth, String), RkthError>)
    ensures
        match r {
            Ok((h, text)) => {
                &&& spec_rkth_from_output(output@) == Ok::<Seq<u8>, RkthError>(h.0@)
                &&& text@ == spec_generate_hex(h.0@)
                &&& spec_rkth_from_hex(text@) == Ok::<Seq<u8>, RkthError>(h.0@)
            },
            Err(e) => spec_rkth_from_output(output@) == Err::<Seq<u8>, RkthError>(e),
        },
{
    match rkth_from_output(output) {
        Err(e) => Err(e),
        Ok(h) => {
            let text = h.as_hex();
            proof {
                lemma_rkth_hex_roundtrip(h);
            }
            Ok((h, text))
        },
    }
}

/// Description of the root certificate, relative to the artifacts directory.
pub const ROOT_KEY_DESCR_PATH: &'static str = "./cert-rot1.yaml";

/// Description of the image signing certificate, relative to the artifacts directory.
pub const IMG_KEY_DESCR_PATH: &'static str = "./cert-img1.yaml";

/// Description of the certificate block, relative to the artifacts directory.
pub const CERT_BLOCK_DESCR_PATH: &'static str = "./cert-block.yaml";

/// The message given when an external tool could not be run.
pub fn failed_exec(tool: &str) -> (s: String)
    ensures
        s@ == "Could not execute `"@ + tool@ + "`, is it installed?"@,
{
    join3("Could not execute `", tool, "`, is it installed?")
}

/// The file a certificate description produces: the description's path with
/// extension `pem`.
pub fn certificate_output_path(descr: &str) -> (s: String)
    ensures
        s@ == spec_with_extension(descr@, "pem"@),
{
    proof {
        reveal_strlit("pem");
    }
    with_extension(descr, "pem")
}

/// Arguments that make the crypto tool generate a private key of `key_type`
/// in PEM form at `output`.
pub fn private_key_args(key_type: &str, output: &str) -> (r: Vec<String>)
    ensures
        r@.len() == 8,
        r@[0]@ == "key"@ && r@[1]@ == "generate"@ && r@[2]@ == "-k"@ && r@[3]@ == key_type@,
        r@[4]@ == "-e"@ && r@[5]@ == "PEM"@ && r@[6]@ == "-o"@ && r@[7]@ == output@,
{
    strings_of(&["key", "generate", "-k", key_type, "-e", "PEM", "-o", output])
}

/// Arguments that make the crypto tool build a PEM certificate at `output`
/// from the description in `input`.
pub fn certificate_args(input: &str, output: &str) -> (r: Vec<String>)
    ensures
        r@.len() == 8,
        r@[0]@ == "cert"@ && r@[1]@ == "generate"@ && r@[2]@ == "-e"@ && r@[3]@ == "PEM"@,
        r@[4]@ == "-c"@ && r@[5]@ == input@ && r@[6]@ == "-o"@ && r@[7]@ == output@,
{
    strings_of(&["cert", "generate", "-e", "PEM", "-c", input, "-o", output])
}

/// Arguments that make the image tool export the certificate block described
/// in `input`, printing its Root Key Table Hash.
pub fn cert_block_args(input: &str) -> (r: Vec<String>)
    ensures
        r@.len() == 4,
        r@[0]@ == "cert-block"@ && r@[1]@ == "export"@ && r@[2]@ == "-c"@ && r@[3]@ == input@,
{
    strings_of(&["cert-block", "export", "-c", input])
}

} // verus!
