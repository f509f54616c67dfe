//! Image manifest parsing.
//!
//! A manifest starts with a fixed header and ends with a CRC32 word; both are
//! little-endian. The manifest lives at some offset inside an image.

use vstd::prelude::*;
use crate::bytes::{le_word, word_from_le};

verus! {

/// Magic word of a manifest ("imgm").
pub const MANIFEST_MAGIC: u32 = 0x6D676D69;

/// The only supported manifest format version.
pub const MANIFEST_FORMAT_VERSION: u32 = 0x0001_0000;

/// Size in bytes of the manifest header.
pub const MANIFEST_HEADER_SIZE: u32 = 20;

/// Why a manifest was rejected.
#[derive(Debug, PartialEq, Eq, Structural, Clone, Copy)]
pub enum ManifestError {
    Magic,
    Version,
    Size,
    Bounds,
}

/// The fixed header at the start of a manifest.
#[derive(Debug, PartialEq, Eq, Structural, Clone, Copy)]
pub struct ManifestHeaderRaw {
    pub magic: u32,
    pub format_version: u32,
    pub firmware_version: u32,
    pub manifest_size: u32,
    pub flags: u32,
}

/// A manifest whose header passed the checks, with the CRC32 stored in its
/// last four bytes.
#[derive(Debug, PartialEq, Eq, Structural, Clone, Copy)]
pub struct Manifest {
    pub raw: ManifestHeaderRaw,
    pub crc32: u32,
}

/// The little-endian word at byte offset `at` of `m`.
pub open spec fn word_at(m: Seq<u8>, at: int) -> u32 {
    le_word(m[at], m[at + 1], m[at + 2], m[at + 3])
}

/// The header stored at byte offset `at` of `m`.
pub open spec fn header_at(m: Seq<u8>, at: int) -> ManifestHeaderRaw {
    ManifestHeaderRaw {
        magic: word_at(m, at),
        format_version: word_at(m, at + 4),
        firmware_version: word_at(m, at + 8),
        manifest_size: word_at(m, at + 12),
        flags: word_at(m, at + 16),
    }
}

/// What parsing the manifest at `offset` of an image of `image_len` bytes,
/// held at the start of `m`, gives.
pub open spec fn spec_parse_manifest(m: Seq<u8>, offset: u32, image_len: u32) -> Result<
    Manifest,
    ManifestError,
> {
    if offset >= image_len {
        Err(ManifestError::Bounds)
    } else {
        let h = header_at(m, offset as int);
        if h.magic != MANIFEST_MAGIC {
            Err(ManifestError::Magic)
        } else if h.format_version != MANIFEST_FORMAT_VERSION {
            Err(ManifestError::Version)
        } else if h.manifest_size < MANIFEST_HEADER_SIZE {
            Err(ManifestError::Size)
        } else if offset + h.manifest_size > image_len {
            Err(ManifestError::Bounds)
        } else {
            Ok(Manifest { raw: h, crc32: word_at(m, offset + h.manifest_size - 4) })
        }
    }
}

fn read_word(m: &[u8], at: usize) -> (w: u32)
    requires
        at + 4 <= m@.len(),
    ensures
        w == word_at(m@, at as int),
{
    word_from_le(m[at], m[at + 1], m[at + 2], m[at + 3])
}

/// Parses the manifest at byte `offset` of an image of `image_len` bytes whose
/// memory starts at `memory[0]`.
///
/// The offset must lie inside the image, the header must carry the magic and
/// the supported version, the manifest must be at least a header long and must
/// end inside the image; the CRC32 is read from its last four bytes.
pub fn parse_manifest(memory: &[u8], offset: u32, image_len: u32) -> (r: Result<
    Manifest,
    ManifestError,
>)
    requires
        image_len <= memory@.len(),
        offset < image_len ==> offset + MANIFEST_HEADER_SIZE <= memory@.len(),
    ensures
        r == spec_parse_manifest(memory@, offset, image_len),
{
    if offset >= image_len {
        return Err(ManifestError::Bounds);
    }
    let len = memory.len();
    assert(offset + MANIFEST_HEADER_SIZE <= len);
    let at = offset as usize;
    let raw = ManifestHeaderRaw {
        magic: read_word(memory, at),
        format_version: read_word(memory, at + 4),
        firmware_version: read_word(memory, at + 8),
        manifest_size: read_word(memory, at + 12),
        flags: read_word(memory, at + 16),
    };
    if raw.magic != MANIFEST_MAGIC {
        return Err(ManifestError::Magic);
    }
    if raw.format_version != MANIFEST_FORMAT_VERSION {
        return Err(ManifestError::Version);
    }
    if raw.manifest_size < MANIFEST_HEADER_SIZE {
        return Err(ManifestError::Size);
    }
    if offset as u64 + raw.manifest_size as u64 > image_len as u64 {
        return Err(ManifestError::Bounds);
    }
    let crc_off = at + raw.manifest_size as usize - 4;
    let crc32 = read_word(memory, crc_off);
    Ok(Manifest { raw, crc32 })
}

/// A manifest that parses lies inside the image, and its CRC32 is the word
/// in its last four bytes.
pub proof fn lemma_parsed_manifest_in_bounds(m: Seq<u8>, offset: u32, image_len: u32)
    requires
        spec_parse_manifest(m, offset, image_len) is Ok,
    ensures
        ({
            let man = spec_parse_manifest(m, offset, image_len)->Ok_0;
            &&& man.raw == header_at(m, offset as int)
            &&& MANIFEST_HEADER_SIZE <= man.raw.manifest_size
            &&& offset + man.raw.manifest_size <= image_len
            &&& man.crc32 == word_at(m, offset + man.raw.manifest_size - 4)
        }),
{
}

} // verus!
