//! Reading and rewriting 32-bit ELF files, through the `object` crate.

use vstd::prelude::*;
use object::read::elf::ProgramHeader;
use object::{Object, ObjectSegment};
use crate::tool::objcopy::{ElfImage, ElfSegment};

verus! {

#[verifier::external_type_specification]
#[verifier::external_body]
pub struct ExReadError(object::read::Error);

#[verifier::external_type_specification]
#[verifier::external_body]
pub struct ExBuildError(object::build::Error);

/// The loadable segments and entry point `object` reads from 32-bit ELF
/// bytes, or `None` when it does not parse them.
pub uninterp spec fn spec_read_elf32(bytes: Seq<u8>) -> Option<ElfImage>;

/// The address and type of each live section `object`'s ELF builder reads
/// from the bytes, in order, or `None` when it does not parse them.
pub uninterp spec fn spec_elf32_sections(bytes: Seq<u8>) -> Option<Seq<SectionInfo>>;

/// The bytes `object`'s ELF builder writes after reading `bytes`, marking
/// the live sections for deletion as `delete` says (in order), and deleting
/// orphaned items; `None` when reading or writing fails.
pub uninterp spec fn spec_elf32_delete_sections(bytes: Seq<u8>, delete: Seq<bool>) -> Option<Seq<u8>>;

/// Why an ELF file could not be processed.
#[derive(Debug, PartialEq, Eq, Structural, Clone, Copy)]
pub enum ElfError {
    /// The bytes are not a 32-bit ELF file `object` can read.
    Parse,
    /// The rewritten file could not be produced.
    Write,
}

/// Address and type of an ELF section.
#[derive(Debug, PartialEq, Eq, Structural, Clone, Copy)]
pub struct SectionInfo {
    pub addr: u64,
    pub kind: u32,
}

/// Parses 32-bit ELF bytes with `object::read::elf::ElfFile32::parse` and
/// lists its loadable segments (`Object::segments`, the `PT_LOAD` program
/// headers) with their physical address, file size, memory size and file
/// bytes (`ObjectSegment::data`), and the entry point (`Object::entry`).
/// Claims: the result depends on the bytes alone, and present segment data
/// is `p_filesz` bytes long (`data` reads `p_filesz` bytes at `p_offset`).
#[verifier::external_body]
fn read_elf32_segments(bytes: &[u8]) -> (r: Result<ElfImage, object::read::Error>)
    ensures
        r is Ok <==> spec_read_elf32(bytes@) is Some,
        r is Ok ==> r->Ok_0 == spec_read_elf32(bytes@)->0 && r->Ok_0.wf(),
{
    let file = object::read::elf::ElfFile32::<object::Endianness>::parse(bytes)?;
    let e = file.endian();
    let mut segments = Vec::new();
    for s in file.segments() {
        let h = s.elf_program_header();
        let data = s.data().ok().map(<[u8]>::to_vec);
        segments.push(ElfSegment { paddr: h.p_paddr(e), filesz: h.p_filesz(e), memsz: h.p_memsz(e), data });
    }
    Ok(ElfImage { entry: file.entry() as u32, segments })
}

/// Reads 32-bit ELF bytes with `object::build::elf::Builder::read32` and lists
/// the `sh_addr` and `sh_type` of its live sections in table order.
/// Claims: the result depends on the bytes alone.
#[verifier::external_body]
fn elf32_sections(bytes: &[u8]) -> (r: Result<Vec<SectionInfo>, object::build::Error>)
    ensures
        r is Ok <==> spec_elf32_sections(bytes@) is Some,
        r is Ok ==> r->Ok_0@ == spec_elf32_sections(bytes@)->0,
{
    let builder = object::build::elf::Builder::read32(bytes)?;
    let mut v = Vec::new();
    for s in builder.sections.iter() {
        v.push(SectionInfo { addr: s.sh_addr, kind: s.sh_type.0 });
    }
    Ok(v)
}

/// Reads 32-bit ELF bytes with `object::build::elf::Builder::read32`, sets the
/// `delete` flag of the live sections from `delete` in table order, calls
/// `delete_orphans` and writes the file with `Builder::write`.
/// Claims: the result depends on the bytes and the flags alone.
#[verifier::external_body]
fn elf32_delete_sections(bytes: &[u8], delete: &[bool]) -> (r: Result<Vec<u8>, object::build::Error>)
    ensures
        r is Ok <==> spec_elf32_delete_sections(bytes@, delete@) is Some,
        r is Ok ==> r->Ok_0@ == spec_elf32_delete_sections(bytes@, delete@)->0,
{
    let mut builder = object::build::elf::Builder::read32(bytes)?;
    for (s, d) in builder.sections.iter_mut().zip(delete.iter()) {
        s.delete = *d;
    }
    builder.delete_orphans();
    let mut out = Vec::new();
    builder.write(&mut out)?;
    Ok(out)
}

/// Parses a 32-bit ELF file into its loadable segments and entry point.
pub fn parse_elf(bytes: &[u8]) -> (r: Result<ElfImage, ElfError>)
    ensures
        match spec_read_elf32(bytes@) {
            Some(f) => r == Ok::<ElfImage, ElfError>(f),
            None => r == Err::<ElfImage, ElfError>(ElfError::Parse),
        },
        r is Ok ==> r->Ok_0.wf(),
{
    match read_elf32_segments(bytes) {
        Ok(f) => Ok(f),
        Err(_) => Err(ElfError::Parse),
    }
}

/// Section type of program data.
pub const SHT_PROGBITS: u32 = 1;

/// Section type of zero-initialised data.
pub const SHT_NOBITS: u32 = 8;

/// A section is removed from the prelude file unless its address (taken
/// modulo 2^32) lies in the prelude range `0x0800_0000..0x0800_1000`, or it is
/// neither program data nor zero-initialised data.
pub open spec fn spec_removed(s: SectionInfo) -> bool {
    let a = s.addr as u32;
    !(0x0800_0000 <= a < 0x0800_1000) && (s.kind == SHT_PROGBITS || s.kind == SHT_NOBITS)
}

/// Whether a section leaves the prelude file.
pub fn section_is_removed(s: SectionInfo) -> (r: bool)
    ensures
        r == spec_removed(s),
{
    let a = s.addr as u32;
    if 0x0800_0000 <= a && a < 0x0800_1000 {
        return false;
    }
    if s.kind != SHT_PROGBITS && s.kind != SHT_NOBITS {
        return false;
    }
    true
}

/// Which sections, in order, leave the prelude file.
pub fn prelude_delete_flags(sections: &[SectionInfo]) -> (v: Vec<bool>)
    ensures
        v@ == Seq::new(sections@.len(), |i: int| spec_removed(sections@[i])),
{
    let mut delete: Vec<bool> = Vec::new();
    let n = sections.len();
    let mut i: usize = 0;
    while i < n
        invariant
            n == sections@.len(),
            i <= n,
            delete@.len() == i,
            forall|k: int| 0 <= k < i ==> delete@[k] == spec_removed(sections@[k]),
        decreases n - i,
    {
        delete.push(section_is_removed(sections[i]));
        i = i + 1;
    }
    assert(delete@ =~= Seq::new(sections@.len(), |k: int| spec_removed(sections@[k])));
    delete
}

/// Writes a copy of a 32-bit ELF file that keeps only the flash prelude: the
/// data sections outside the prelude range are deleted, with what they alone
/// referred to.
pub fn remove_non_prelude(bytes: &[u8]) -> (r: Result<Vec<u8>, ElfError>)
    ensures
        match spec_elf32_sections(bytes@) {
            None => r == Err::<Vec<u8>, ElfError>(ElfError::Parse),
            Some(secs) => {
                let delete = Seq::new(secs.len(), |i: int| spec_removed(secs[i]));
                match spec_elf32_delete_sections(bytes@, delete) {
                    Some(out) => r is Ok && r->Ok_0@ == out,
                    None => r == Err::<Vec<u8>, ElfError>(ElfError::Write),
                }
            },
        },
{
    let sections = match elf32_sections(bytes) {
        Ok(s) => s,
        Err(_) => return Err(ElfError::Parse),
    };
    let delete = prelude_delete_flags(sections.as_slice());
    match elf32_delete_sections(bytes, delete.as_slice()) {
        Ok(out) => Ok(out),
        Err(_) => Err(ElfError::Write),
    }
}

} // verus!
