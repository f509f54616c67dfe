//! Copying the loadable segments of one or more ELF images into one flat
//! binary image.

use vstd::prelude::*;

verus! {

/// Moves physical load addresses in `[from_start, from_end]` to `to_start` on.
#[derive(Debug, PartialEq, Eq, Structural, Clone, Copy)]
pub struct AddressMapping {
    pub from_start: u64,
    pub from_end: u64,
    pub to_start: u64,
}

/// `a` comes before `b`: ordered by start, then end, then target.
pub open spec fn mapping_lt(a: AddressMapping, b: AddressMapping) -> bool {
    ||| a.from_start < b.from_start
    ||| a.from_start == b.from_start && a.from_end < b.from_end
    ||| a.from_start == b.from_start && a.from_end == b.from_end && a.to_start < b.to_start
}

/// The mappings are in strictly increasing order, as in an ordered set.
pub open spec fn mappings_sorted(ms: Seq<AddressMapping>) -> bool {
    forall|i: int, j: int| 0 <= i < j < ms.len() ==> mapping_lt(#[trigger] ms[i], #[trigger] ms[j])
}

/// `paddr` lies in the source range of `m`.
pub open spec fn mapping_covers(m: AddressMapping, paddr: u32) -> bool {
    m.from_start <= paddr && paddr <= m.from_end
}

/// Index of the first mapping at or after `i` that covers `paddr`.
pub open spec fn first_mapping_from(ms: Seq<AddressMapping>, paddr: u32, i: int) -> Option<int>
    decreases ms.len() - i,
{
    if i < 0 || i >= ms.len() {
        None
    } else if mapping_covers(ms[i], paddr) {
        Some(i)
    } else {
        first_mapping_from(ms, paddr, i + 1)
    }
}

/// The address `paddr` is moved to: by the first mapping that covers it, or unchanged.
pub open spec fn spec_map_paddr(ms: Seq<AddressMapping>, paddr: u32) -> int {
    match first_mapping_from(ms, paddr, 0) {
        Some(i) => (ms[i].to_start as u32) + (paddr - ms[i].from_start),
        None => paddr as int,
    }
}

/// The moved address fits in 32 bits.
pub open spec fn map_paddr_defined(ms: Seq<AddressMapping>, paddr: u32) -> bool {
    spec_map_paddr(ms, paddr) <= u32::MAX
}

/// How segments are placed in the output image.
pub struct Config {
    /// Address mappings, in increasing order.
    pub mappings: Vec<AddressMapping>,
    /// Largest image that may be produced.
    pub max_size: Option<u32>,
}

impl Config {
    pub open spec fn wf(&self) -> bool {
        mappings_sorted(self.mappings@)
    }

    /// Moves `paddr` by the first mapping that covers it; `None` when the moved
    /// address does not fit in 32 bits.
    pub fn map_paddr_checked(&self, paddr: u32) -> (r: Option<u32>)
        ensures
            match r {
                Some(a) => map_paddr_defined(self.mappings@, paddr) && a == spec_map_paddr(
                    self.mappings@,
                    paddr,
                ),
                None => !map_paddr_defined(self.mappings@, paddr),
            },
    {
        let n = self.mappings.len();
        let mut i: usize = 0;
        while i < n
            invariant
                n == self.mappings@.len(),
                i <= n,
                first_mapping_from(self.mappings@, paddr, 0) == first_mapping_from(
                    self.mappings@,
                    paddr,
                    i as int,
                ),
            decreases n - i,
        {
            let m = self.mappings[i];
            if m.from_start <= paddr as u64 && paddr as u64 <= m.from_end {
                let offset = paddr - m.from_start as u32;
                let to = m.to_start as u32;
                if to as u64 + offset as u64 > u32::MAX as u64 {
                    return None;
                }
                return Some(to + offset);
            }
            i = i + 1;
        }
        Some(paddr)
    }

    /// Moves a physical address by the first mapping, in order, whose range
    /// `[from_start, from_end]` contains it: the address keeps its offset from
    /// `from_start` relative to `to_start`. Addresses no mapping covers stay.
    pub fn map_paddr(&self, paddr: u32) -> (a: u32)
        requires
            self.wf(),
            map_paddr_defined(self.mappings@, paddr),
        ensures
            a == spec_map_paddr(self.mappings@, paddr),
    {
        match self.map_paddr_checked(paddr) {
            Some(a) => a,
            None => 0,
        }
    }
}


/// The physical address range of the flash prelude, which is left out of images.
pub open spec fn in_prelude(paddr: int) -> bool {
    0x0800_0000 <= paddr < 0x0800_1000
}

/// A loadable segment of an ELF image.
#[derive(Debug, PartialEq, Eq, Clone)]
pub struct ElfSegment {
    /// Physical load address.
    pub paddr: u32,
    /// Bytes the segment occupies in the file.
    pub filesz: u32,
    /// Bytes the segment occupies in memory.
    pub memsz: u32,
    /// The bytes of the segment in the file, when the file holds them.
    pub data: Option<Vec<u8>>,
}

/// The parts of an ELF image that go into a binary image.
#[derive(Debug, PartialEq, Eq, Clone)]
pub struct ElfImage {
    /// Entry point address.
    pub entry: u32,
    /// Loadable segments, in the order of the program header table.
    pub segments: Vec<ElfSegment>,
}

impl ElfSegment {
    /// Segment data, when present, is exactly `filesz` bytes.
    pub open spec fn wf(&self) -> bool {
        self.data is Some ==> self.data->0@.len() == self.filesz
    }
}

impl ElfImage {
    pub open spec fn wf(&self) -> bool {
        forall|i: int| 0 <= i < self.segments@.len() ==> (#[trigger] self.segments@[i]).wf()
    }
}

/// A segment placed in the output image.
#[derive(Debug, PartialEq, Eq, Clone)]
pub struct Segment {
    pub paddr: u32,
    pub data: Vec<u8>,
}

/// A placed segment as its address and bytes.
pub type SegmentView = (u32, Seq<u8>);

impl View for Segment {
    type V = SegmentView;

    open spec fn view(&self) -> SegmentView {
        (self.paddr, self.data@)
    }
}

/// The views of a sequence of placed segments.
pub open spec fn segments_view(v: Seq<Segment>) -> Seq<SegmentView> {
    Seq::new(v.len(), |i: int| v[i]@)
}

/// Why an image could not be produced.
#[derive(Debug, PartialEq, Eq, Structural, Clone, Copy)]
pub enum ObjcopyError {
    /// A segment occupies more bytes in the file than in memory.
    FileszLargerThanMemsz,
    /// A segment is only partially a bss segment.
    PartialBss,
    /// Segments are not in order of physical address, or overlap.
    Unordered,
    /// The entry point of image `file_i` is not at 0x131 past its lowest address.
    EntryMismatch { file_i: usize, actual: u32, expected: u32 },
    /// The image would be larger than allowed.
    TooLarge { size: u32, max_size: u32 },
}

/// What happens to one segment, given the end of the previous kept one.
pub enum SegmentStep {
    /// Left out: an empty (bss) segment or one in the prelude.
    Skip,
    /// The image is rejected.
    Fail(ObjcopyError),
    /// Kept at the given (moved) physical address.
    Keep(u32),
}

/// The step for segment `s` with the mappings `ms`, after a kept segment ending at `last`.
pub open spec fn segment_step(s: ElfSegment, ms: Seq<AddressMapping>, last: u32) -> SegmentStep {
    if s.filesz == 0 {
        SegmentStep::Skip
    } else if s.filesz > s.memsz {
        SegmentStep::Fail(ObjcopyError::FileszLargerThanMemsz)
    } else if s.memsz > s.filesz {
        SegmentStep::Fail(ObjcopyError::PartialBss)
    } else {
        let p = spec_map_paddr(ms, s.paddr);
        if in_prelude(p) {
            SegmentStep::Skip
        } else if p < last {
            SegmentStep::Fail(ObjcopyError::Unordered)
        } else {
            SegmentStep::Keep(p as u32)
        }
    }
}

/// The step for `s` neither overflows an address nor needs absent data.
pub open spec fn segment_step_defined(s: ElfSegment, ms: Seq<AddressMapping>, last: u32) -> bool {
    s.filesz == 0 || s.filesz > s.memsz || s.memsz > s.filesz || {
        &&& map_paddr_defined(ms, s.paddr)
        &&& ({
            let p = spec_map_paddr(ms, s.paddr);
            in_prelude(p) || p < last || (s.data is Some && p + s.filesz <= u32::MAX)
        })
    }
}

/// The segments kept from `segs` and the end of the last kept one, starting
/// after a kept segment ending at `last`; or the first rejection.
pub open spec fn collect_segments(segs: Seq<ElfSegment>, ms: Seq<AddressMapping>, last: u32) -> Result<
    (Seq<SegmentView>, u32),
    ObjcopyError,
>
    decreases segs.len(),
{
    if segs.len() == 0 {
        Ok((Seq::empty(), last))
    } else {
        match segment_step(segs[0], ms, last) {
            SegmentStep::Skip => collect_segments(segs.drop_first(), ms, last),
            SegmentStep::Fail(e) => Err(e),
            SegmentStep::Keep(p) => {
                let d = segs[0].data->0@;
                match collect_segments(segs.drop_first(), ms, (p + segs[0].filesz) as u32) {
                    Ok((r, l)) => Ok((seq![(p, d)] + r, l)),
                    Err(e) => Err(e),
                }
            },
        }
    }
}

/// No step of [`collect_segments`] overflows an address or needs absent data.
pub open spec fn collect_segments_defined(
    segs: Seq<ElfSegment>,
    ms: Seq<AddressMapping>,
    last: u32,
) -> bool
    decreases segs.len(),
{
    segs.len() == 0 || {
        &&& segment_step_defined(segs[0], ms, last)
        &&& match segment_step(segs[0], ms, last) {
            SegmentStep::Skip => collect_segments_defined(segs.drop_first(), ms, last),
            SegmentStep::Fail(_) => true,
            SegmentStep::Keep(p) => collect_segments_defined(
                segs.drop_first(),
                ms,
                (p + segs[0].filesz) as u32,
            ),
        }
    }
}

/// The segments of image `file_i` and the end of its last kept segment,
/// after a kept segment ending at `last`; or why the image is rejected.
/// The entry point must lie 0x131 past the lowest kept address (the boot ROM
/// starts at offset 0x130 of the image, plus one for Thumb mode).
pub open spec fn spec_get_segments(
    file_i: int,
    f: ElfImage,
    ms: Seq<AddressMapping>,
    last: u32,
) -> Result<(Seq<SegmentView>, u32), ObjcopyError> {
    match collect_segments(f.segments@, ms, last) {
        Err(e) => Err(e),
        Ok((segs, l)) => {
            let expected = segs[0].0 + 0x131;
            let actual = spec_map_paddr(ms, f.entry);
            if actual != expected {
                Err(ObjcopyError::EntryMismatch {
                    file_i: file_i as usize,
                    actual: actual as u32,
                    expected: expected as u32,
                })
            } else {
                Ok((segs, l))
            }
        },
    }
}

/// Taking the segments of image `file_i` neither overflows nor meets an image
/// without kept segments.
pub open spec fn get_segments_defined(
    f: ElfImage,
    ms: Seq<AddressMapping>,
    last: u32,
) -> bool {
    &&& collect_segments_defined(f.segments@, ms, last)
    &&& match collect_segments(f.segments@, ms, last) {
        Err(_) => true,
        Ok((segs, l)) => segs.len() > 0 && segs[0].0 + 0x131 <= u32::MAX && map_paddr_defined(
            ms,
            f.entry,
        ),
    }
}


/// `r` with the segments `v` put in front of its segments.
pub open spec fn prepend_segments(
    v: Seq<SegmentView>,
    r: Result<(Seq<SegmentView>, u32), ObjcopyError>,
) -> Result<(Seq<SegmentView>, u32), ObjcopyError> {
    match r {
        Ok((r2, l)) => Ok((v + r2, l)),
        Err(e) => Err(e),
    }
}

/// Putting no segments in front changes nothing.
pub proof fn lemma_prepend_empty(r: Result<(Seq<SegmentView>, u32), ObjcopyError>)
    ensures
        prepend_segments(Seq::empty(), r) == r,
{
    match r {
        Ok((r2, l)) => {
            assert(Seq::<SegmentView>::empty() + r2 =~= r2);
        },
        Err(_) => {},
    }
}

/// Putting segments in front, twice, is putting their concatenation in front.
pub proof fn lemma_prepend_assoc(
    a: Seq<SegmentView>,
    b: Seq<SegmentView>,
    r: Result<(Seq<SegmentView>, u32), ObjcopyError>,
)
    ensures
        prepend_segments(a, prepend_segments(b, r)) == prepend_segments(a + b, r),
{
    match r {
        Ok((r2, l)) => {
            assert(a + (b + r2) =~= (a + b) + r2);
        },
        Err(_) => {},
    }
}

/// A collection result seen through the segments' views.
pub open spec fn collected_view(r: Result<(Vec<Segment>, u32), ObjcopyError>) -> Result<
    (Seq<SegmentView>, u32),
    ObjcopyError,
> {
    match r {
        Ok((v, l)) => Ok((segments_view(v@), l)),
        Err(e) => Err(e),
    }
}

fn in_prelude_range(paddr: u32) -> (r: bool)
    ensures
        r == in_prelude(paddr as int),
{
    0x0800_0000 <= paddr && paddr < 0x0800_1000
}

/// Keeps the loadable segments of one image, in order; `None` where an
/// address overflows, data is absent, or no segment is kept.
fn get_segments_checked(file_i: usize, file: &ElfImage, config: &Config, last: u32) -> (r: Option<
    Result<(Vec<Segment>, u32), ObjcopyError>,
>)
    requires
        file.wf(),
    ensures
        r is None <==> !get_segments_defined(*file, config.mappings@, last),
        r is Some ==> collected_view(r->0) == spec_get_segments(
            file_i as int,
            *file,
            config.mappings@,
            last,
        ),
{
    let ghost ms = config.mappings@;
    let ghost segs = file.segments@;
    let n = file.segments.len();
    let mut kept: Vec<Segment> = Vec::new();
    let mut cur = last;
    let mut i: usize = 0;
    proof {
        assert(segs.skip(0) =~= segs);
        assert(segments_view(kept@) =~= Seq::<SegmentView>::empty());
        lemma_prepend_empty(collect_segments(segs, ms, last));
    }
    while i < n
        invariant
            n == segs.len(),
            segs == file.segments@,
            cur >= last,
            ms == config.mappings@,
            file.wf(),
            i <= n,
            collect_segments(segs, ms, last) == prepend_segments(
                segments_view(kept@),
                collect_segments(segs.skip(i as int), ms, cur),
            ),
            collect_segments_defined(segs, ms, last) == collect_segments_defined(
                segs.skip(i as int),
                ms,
                cur,
            ),
            kept@.len() > 0 ==> kept@[0].paddr >= last,
        decreases n - i,
    {
        let seg = &file.segments[i];
        let ghost rest = segs.skip(i as int);
        assert(rest[0] == segs[i as int]);
        assert(rest.drop_first() =~= segs.skip(i + 1));
        assert(file.segments@[i as int].wf());
        if seg.filesz == 0 {
            i = i + 1;
            continue;
        }
        if seg.filesz > seg.memsz {
            proof {
                assert(collect_segments_defined(rest, ms, cur) == true);
            }
            return Some(Err(ObjcopyError::FileszLargerThanMemsz));
        }
        if seg.memsz > seg.filesz {
            return Some(Err(ObjcopyError::PartialBss));
        }
        let paddr = match config.map_paddr_checked(seg.paddr) {
            Some(p) => p,
            None => return None,
        };
        if in_prelude_range(paddr) {
            i = i + 1;
            continue;
        }
        if paddr < cur {
            return Some(Err(ObjcopyError::Unordered));
        }
        let data = match &seg.data {
            Some(d) => d,
            None => return None,
        };
        if paddr as u64 + seg.filesz as u64 > u32::MAX as u64 {
            return None;
        }
        let ghost old_kept = segments_view(kept@);
        kept.push(Segment { paddr, data: vstd::slice::slice_to_vec(data.as_slice()) });
        assert(segments_view(kept@) =~= old_kept + seq![(paddr, data@)]);
        proof {
            lemma_prepend_assoc(
                old_kept,
                seq![(paddr, data@)],
                collect_segments(segs.skip(i + 1), ms, (paddr + seg.filesz) as u32),
            );
        }
        cur = paddr + seg.filesz;
        i = i + 1;
    }
    assert(segs.skip(n as int) =~= Seq::<ElfSegment>::empty());
    assert(segments_view(kept@) + Seq::<SegmentView>::empty() =~= segments_view(kept@));
    if kept.len() == 0 {
        return None;
    }
    let base = kept[0].paddr;
    if base as u64 + 0x131 > u32::MAX as u64 {
        return None;
    }
    let expected = base + 0x131;
    let actual = match config.map_paddr_checked(file.entry) {
        Some(a) => a,
        None => return None,
    };
    if actual != expected {
        return Some(Err(ObjcopyError::EntryMismatch { file_i, actual, expected }));
    }
    Some(Ok((kept, cur)))
}


/// The segments kept from all `files` (the first has index `start`), in
/// order, after a kept segment ending at `last`; or the first rejection.
pub open spec fn collect_files(
    files: Seq<ElfImage>,
    ms: Seq<AddressMapping>,
    last: u32,
    start: int,
) -> Result<(Seq<SegmentView>, u32), ObjcopyError>
    decreases files.len(),
{
    if files.len() == 0 {
        Ok((Seq::empty(), last))
    } else {
        match spec_get_segments(start, files[0], ms, last) {
            Err(e) => Err(e),
            Ok((segs, l)) => prepend_segments(segs, collect_files(files.drop_first(), ms, l, start + 1)),
        }
    }
}

/// Collecting the segments of all `files` neither overflows nor meets an image
/// without kept segments.
pub open spec fn collect_files_defined(
    files: Seq<ElfImage>,
    ms: Seq<AddressMapping>,
    last: u32,
    start: int,
) -> bool
    decreases files.len(),
{
    files.len() == 0 || {
        &&& get_segments_defined(files[0], ms, last)
        &&& match spec_get_segments(start, files[0], ms, last) {
            Err(_) => true,
            Ok((segs, l)) => collect_files_defined(files.drop_first(), ms, l, start + 1),
        }
    }
}

/// Producing an image from `files` neither overflows nor meets an empty set of
/// segments.
pub open spec fn objcopy_defined(files: Seq<ElfImage>, ms: Seq<AddressMapping>) -> bool {
    files.len() > 0 && collect_files_defined(files, ms, 0, 0)
}

/// The byte at address `a` after copying `segs` in order into zeroed memory:
/// the byte of the last segment that covers `a`, or zero.
pub open spec fn byte_at(segs: Seq<SegmentView>, a: int) -> u8
    decreases segs.len(),
{
    if segs.len() == 0 {
        0
    } else {
        let s = segs.last();
        if s.0 <= a < s.0 + s.1.len() {
            s.1[a - s.0]
        } else {
            byte_at(segs.drop_last(), a)
        }
    }
}

/// The image of `size` bytes from `base` on that copying `segs` in order produces.
pub open spec fn spec_image(segs: Seq<SegmentView>, base: int, size: int) -> Seq<u8> {
    Seq::new(size as nat, |k: int| byte_at(segs, base + k))
}

/// End address of a placed segment.
pub open spec fn seg_end(s: SegmentView) -> int {
    s.0 + s.1.len()
}

/// The binary image of `files`, and its base address: all kept segments,
/// copied to their offset from the lowest one, with zeros in between; or why
/// no image is produced.
pub open spec fn spec_objcopy(files: Seq<ElfImage>, ms: Seq<AddressMapping>, max_size: Option<u32>) -> Result<
    (Seq<u8>, u32),
    ObjcopyError,
> {
    match collect_files(files, ms, 0, 0) {
        Err(e) => Err(e),
        Ok((segs, l)) => {
            let base = segs[0].0;
            let size = seg_end(segs.last()) - base;
            match max_size {
                Some(m) if size > m => Err(ObjcopyError::TooLarge { size: size as u32, max_size: m }),
                _ => Ok((spec_image(segs, base as int, size), base)),
            }
        },
    }
}

/// Placed segments lie in `[lo, hi)`, in increasing address order, without overlap.
pub open spec fn segments_ordered(segs: Seq<SegmentView>, lo: int, hi: int) -> bool {
    &&& forall|i: int| 0 <= i < segs.len() ==> lo <= (#[trigger] segs[i]).0 && seg_end(segs[i]) <= hi
    &&& forall|i: int, j: int|
        0 <= i < j < segs.len() ==> seg_end(#[trigger] segs[i]) <= (#[trigger] segs[j]).0
}

/// All segments of all files are well formed.
pub open spec fn files_wf(files: Seq<ElfImage>) -> bool {
    forall|i: int| 0 <= i < files.len() ==> (#[trigger] files[i]).wf()
}

/// The segments kept from one image are in increasing address order, without
/// overlap, between the end of the previous kept segment and the new end.
pub proof fn lemma_collect_segments_ordered(segs: Seq<ElfSegment>, ms: Seq<AddressMapping>, last: u32)
    requires
        forall|i: int| 0 <= i < segs.len() ==> (#[trigger] segs[i]).wf(),
        collect_segments_defined(segs, ms, last),
    ensures
        match collect_segments(segs, ms, last) {
            Ok((r, l)) => last <= l && segments_ordered(r, last as int, l as int),
            Err(_) => true,
        },
    decreases segs.len(),
{
    if segs.len() > 0 {
        let rest = segs.drop_first();
        assert forall|i: int| 0 <= i < rest.len() implies (#[trigger] rest[i]).wf() by {
            assert(rest[i] == segs[i + 1]);
        }
        match segment_step(segs[0], ms, last) {
            SegmentStep::Skip => {
                lemma_collect_segments_ordered(rest, ms, last);
            },
            SegmentStep::Fail(_) => {},
            SegmentStep::Keep(p) => {
                assert(segs[0].wf());
                let nl = (p + segs[0].filesz) as u32;
                lemma_collect_segments_ordered(rest, ms, nl);
                match collect_segments(rest, ms, nl) {
                    Ok((r, l)) => {
                        let d = segs[0].data->0@;
                        let all = seq![(p, d)] + r;
                        assert forall|i: int| 0 <= i < all.len() implies last <= (#[trigger] all[i]).0
                            && seg_end(all[i]) <= l by {
                            if i > 0 {
                                assert(all[i] == r[i - 1]);
                            }
                        }
                        assert forall|i: int, j: int| 0 <= i < j < all.len() implies seg_end(
                            #[trigger] all[i],
                        ) <= (#[trigger] all[j]).0 by {
                            assert(all[j] == r[j - 1]);
                            if i > 0 {
                                assert(all[i] == r[i - 1]);
                            }
                        }
                    },
                    Err(_) => {},
                }
            },
        }
    }
}

/// The segments of one image that passes the checks are ordered as above,
/// and there is at least one.
pub proof fn lemma_get_segments_ordered(file_i: int, f: ElfImage, ms: Seq<AddressMapping>, last: u32)
    requires
        f.wf(),
        get_segments_defined(f, ms, last),
    ensures
        match spec_get_segments(file_i, f, ms, last) {
            Ok((r, l)) => r.len() > 0 && last <= l && segments_ordered(r, last as int, l as int),
            Err(_) => true,
        },
{
    lemma_collect_segments_ordered(f.segments@, ms, last);
}

/// The segments kept from all files are in increasing address order, without
/// overlap, and at least one was kept when there is a file.
pub proof fn lemma_collect_files_ordered(
    files: Seq<ElfImage>,
    ms: Seq<AddressMapping>,
    last: u32,
    start: int,
)
    requires
        files_wf(files),
        collect_files_defined(files, ms, last, start),
    ensures
        match collect_files(files, ms, last, start) {
            Ok((r, l)) => last <= l && segments_ordered(r, last as int, l as int) && (files.len() > 0
                ==> r.len() > 0),
            Err(_) => true,
        },
    decreases files.len(),
{
    if files.len() > 0 {
        let rest = files.drop_first();
        assert forall|i: int| 0 <= i < rest.len() implies (#[trigger] rest[i]).wf() by {
            assert(rest[i] == files[i + 1]);
        }
        assert(files[0].wf());
        lemma_get_segments_ordered(start, files[0], ms, last);
        match spec_get_segments(start, files[0], ms, last) {
            Err(_) => {},
            Ok((segs, l1)) => {
                lemma_collect_files_ordered(rest, ms, l1, start + 1);
                match collect_files(rest, ms, l1, start + 1) {
                    Ok((r, l)) => {
                        let all = segs + r;
                        assert forall|i: int| 0 <= i < all.len() implies last <= (#[trigger] all[i]).0
                            && seg_end(all[i]) <= l by {
                            if i >= segs.len() {
                                assert(all[i] == r[i - segs.len()]);
                            } else {
                                assert(all[i] == segs[i]);
                            }
                        }
                        assert forall|i: int, j: int| 0 <= i < j < all.len() implies seg_end(
                            #[trigger] all[i],
                        ) <= (#[trigger] all[j]).0 by {
                            if j >= segs.len() {
                                assert(all[j] == r[j - segs.len()]);
                            } else {
                                assert(all[j] == segs[j]);
                            }
                            if i >= segs.len() {
                                assert(all[i] == r[i - segs.len()]);
                            } else {
                                assert(all[i] == segs[i]);
                            }
                        }
                    },
                    Err(_) => {},
                }
            },
        }
    }
}


/// In an image made from ordered segments, each segment's bytes sit at its
/// own address: copying them one after another loses none.
pub proof fn lemma_byte_at_segment(segs: Seq<SegmentView>, lo: int, hi: int, i: int, j: int)
    requires
        segments_ordered(segs, lo, hi),
        0 <= i < segs.len(),
        0 <= j < segs[i].1.len(),
    ensures
        byte_at(segs, segs[i].0 + j) == segs[i].1[j],
    decreases segs.len(),
{
    let n = segs.len();
    if i < n - 1 {
        assert(seg_end(segs[i]) <= segs[n - 1].0);
        let d = segs.drop_last();
        assert(d[i] == segs[i]);
        assert forall|k: int| 0 <= k < d.len() implies lo <= (#[trigger] d[k]).0 && seg_end(d[k])
            <= hi by {
            assert(d[k] == segs[k]);
        }
        assert forall|a: int, b: int| 0 <= a < b < d.len() implies seg_end(#[trigger] d[a]) <= (
        #[trigger] d[b]).0 by {
            assert(d[a] == segs[a]);
            assert(d[b] == segs[b]);
        }
        lemma_byte_at_segment(d, lo, hi, i, j);
    }
}

/// The result of producing an image, seen through the image's bytes.
pub open spec fn image_result_view(r: Result<(Vec<u8>, u32), ObjcopyError>) -> Result<
    (Seq<u8>, u32),
    ObjcopyError,
> {
    match r {
        Ok((v, b)) => Ok((v@, b)),
        Err(e) => Err(e),
    }
}

/// Copies the loadable segments of `files` into one binary image; `None` on
/// the inputs where an address would overflow 32 bits, segment data is
/// missing, there is no file, or an image keeps no segment.
///
/// Segments must be globally ordered: those of later files follow those of
/// earlier ones. Empty (bss) segments and segments in the flash prelude are
/// left out; physical addresses are moved by the configured mappings.
pub fn objcopy_checked(files: &[ElfImage], config: &Config) -> (r: Option<
    Result<(Vec<u8>, u32), ObjcopyError>,
>)
    requires
        files_wf(files@),
    ensures
        r is None <==> !objcopy_defined(files@, config.mappings@),
        r is Some ==> image_result_view(r->0) == spec_objcopy(
            files@,
            config.mappings@,
            config.max_size,
        ),
{
    let ghost ms = config.mappings@;
    let nf = files.len();
    let mut all: Vec<Segment> = Vec::new();
    let mut last: u32 = 0;
    let mut i: usize = 0;
    proof {
        assert(files@.skip(0) =~= files@);
        assert(segments_view(all@) =~= Seq::<SegmentView>::empty());
        lemma_prepend_empty(collect_files(files@, ms, 0, 0));
    }
    while i < nf
        invariant
            nf == files@.len(),
            ms == config.mappings@,
            files_wf(files@),
            i <= nf,
            collect_files(files@, ms, 0, 0) == prepend_segments(
                segments_view(all@),
                collect_files(files@.skip(i as int), ms, last, i as int),
            ),
            collect_files_defined(files@, ms, 0, 0) == collect_files_defined(
                files@.skip(i as int),
                ms,
                last,
                i as int,
            ),
        decreases nf - i,
    {
        let ghost rest = files@.skip(i as int);
        assert(rest[0] == files@[i as int]);
        assert(rest.drop_first() =~= files@.skip(i + 1));
        assert(files@[i as int].wf());
        match get_segments_checked(i, &files[i], config, last) {
            None => {
                return None;
            },
            Some(Err(e)) => {
                return Some(Err(e));
            },
            Some(Ok((segs, l))) => {
                let ghost old_all = segments_view(all@);
                let ghost new_segs = segments_view(segs@);
                let mut segs = segs;
                all.append(&mut segs);
                assert(segments_view(all@) =~= old_all + new_segs);
                proof {
                    lemma_prepend_assoc(
                        old_all,
                        new_segs,
                        collect_files(files@.skip(i + 1), ms, l, i + 1),
                    );
                }
                last = l;
            },
        }
        i = i + 1;
    }
    if nf == 0 {
        return None;
    }
    proof {
        assert(files@.skip(nf as int) =~= Seq::<ElfImage>::empty());
        assert(segments_view(all@) + Seq::<SegmentView>::empty() =~= segments_view(all@));
        lemma_collect_files_ordered(files@, ms, 0, 0);
    }
    let ghost segs = segments_view(all@);
    let n = all.len();
    assert(segs[0] == all@[0]@);
    assert(segs[n - 1] == all@[n - 1]@);
    let base = all[0].paddr;
    let top_end = all[n - 1].paddr as u64 + all[n - 1].data.len() as u64;
    assert(top_end == seg_end(segs.last()));
    assert(top_end <= last);
    let top = top_end as u32;
    assert(base <= top) by {
        if n > 1 {
            assert(seg_end(segs[0]) <= segs[n - 1].0);
        }
    }
    let size = top - base;
    match config.max_size {
        Some(m) => {
            if size > m {
                return Some(Err(ObjcopyError::TooLarge { size, max_size: m }));
            }
        },
        None => {},
    }
    let mut image: Vec<u8> = Vec::new();
    let mut z: u32 = 0;
    while z < size
        invariant
            z <= size,
            image@.len() == z,
            forall|k: int| 0 <= k < z ==> image@[k] == 0,
        decreases size - z,
    {
        image.push(0);
        z = z + 1;
    }
    assert(image@ =~= spec_image(segs.take(0), base as int, size as int));
    let mut s: usize = 0;
    while s < n
        invariant
            n == all@.len(),
            segs == segments_view(all@),
            n > 0,
            segments_ordered(segs, 0, last as int),
            base == segs[0].0,
            size == seg_end(segs[n - 1]) - base,
            s <= n,
            image@ == spec_image(segs.take(s as int), base as int, size as int),
        decreases n - s,
    {
        let seg = &all[s];
        assert(segs[s as int] == seg@);
        assert(base <= seg.paddr) by {
            if s > 0 {
                assert(seg_end(segs[0]) <= segs[s as int].0);
            }
        }
        assert(seg_end(seg@) <= base + size) by {
            if s < n - 1 {
                assert(seg_end(segs[s as int]) <= segs[n - 1].0);
            }
        }
        let off = (seg.paddr - base) as usize;
        let len = seg.data.len();
        let ghost before = image@;
        let mut j: usize = 0;
        while j < len
            invariant
                len == seg.data@.len(),
                off + len <= size,
                image@.len() == size,
                j <= len,
                forall|k: int|
                    0 <= k < size ==> #[trigger] image@[k] == if off <= k < off + j {
                        seg.data@[k - off]
                    } else {
                        before[k]
                    },
            decreases len - j,
        {
            image.set(off + j, seg.data[j]);
            j = j + 1;
        }
        proof {
            let t = segs.take(s + 1);
            assert(t.drop_last() =~= segs.take(s as int));
            assert(t.last() == seg@);
            assert(image@ =~= spec_image(t, base as int, size as int));
        }
        s = s + 1;
    }
    assert(segs.take(n as int) =~= segs);
    Some(Ok((image, base)))
}

/// Copies the loadable segments of `files` into one binary image and gives
/// its base address, the lowest kept address.
///
/// Segments must be globally ordered: those of later files follow those of
/// earlier ones, or the image is rejected. Empty (bss) segments and segments
/// in the flash prelude are left out; physical addresses are moved by the
/// configured mappings; the entry point of each file must lie 0x131 past its
/// lowest kept address.
pub fn objcopy(files: &[ElfImage], config: &Config) -> (r: Result<(Vec<u8>, u32), ObjcopyError>)
    requires
        config.wf(),
        files_wf(files@),
        objcopy_defined(files@, config.mappings@),
    ensures
        image_result_view(r) == spec_objcopy(files@, config.mappings@, config.max_size),
{
    match objcopy_checked(files, config) {
        Some(r) => r,
        None => Err(ObjcopyError::Unordered),
    }
}

/// A produced image holds every kept segment's bytes at the segment's offset
/// from the base address, and the base is the lowest kept address.
pub proof fn lemma_objcopy_places_segments(files: Seq<ElfImage>, ms: Seq<AddressMapping>, max_size: Option<u32>)
    requires
        files_wf(files),
        objcopy_defined(files, ms),
        spec_objcopy(files, ms, max_size) is Ok,
    ensures
        ({
            let segs = collect_files(files, ms, 0, 0)->Ok_0.0;
            let (image, base) = spec_objcopy(files, ms, max_size)->Ok_0;
            &&& forall|i: int| 0 <= i < segs.len() ==> base <= (#[trigger] segs[i]).0
            &&& forall|i: int, j: int|
                0 <= i < segs.len() && 0 <= j < segs[i].1.len() ==> image[segs[i].0 - base + j]
                    == #[trigger] segs[i].1[j]
        }),
{
    lemma_collect_files_ordered(files, ms, 0, 0);
    let segs = collect_files(files, ms, 0, 0)->Ok_0.0;
    let l = collect_files(files, ms, 0, 0)->Ok_0.1;
    let (image, base) = spec_objcopy(files, ms, max_size)->Ok_0;
    let n = segs.len();
    assert forall|i: int| 0 <= i < segs.len() implies base <= (#[trigger] segs[i]).0 by {
        if i > 0 {
            assert(seg_end(segs[0]) <= segs[i].0);
        }
    }
    assert forall|i: int, j: int| 0 <= i < segs.len() && 0 <= j < segs[i].1.len() implies image[segs[i].0
        - base + j] == #[trigger] segs[i].1[j] by {
        if i > 0 {
            assert(seg_end(segs[0]) <= segs[i].0);
        }
        if i < n - 1 {
            assert(seg_end(segs[i]) <= segs[n - 1].0);
        }
        lemma_byte_at_segment(segs, 0, l as int, i, j);
    }
}

/// A whole loadable segment outside the prelude, with its data present, that
/// does not run past the 32-bit address space.
pub open spec fn plain_segment(s: ElfSegment) -> bool {
    &&& s.filesz > 0
    &&& s.filesz == s.memsz
    &&& s.data is Some
    &&& s.data->0@.len() == s.filesz
    &&& !in_prelude(s.paddr as int)
    &&& s.paddr + s.filesz <= u32::MAX
}

/// Plain segments in address order: each starts at or after the end of every
/// earlier one (possibly exactly there), and the first at or after `last`.
pub open spec fn ordered_plain_segments(segs: Seq<ElfSegment>, last: int) -> bool {
    &&& forall|i: int| 0 <= i < segs.len() ==> plain_segment(#[trigger] segs[i])
    &&& segs.len() > 0 ==> last <= segs[0].paddr
    &&& forall|i: int, j: int|
        0 <= i < j < segs.len() ==> (#[trigger] segs[i]).paddr + segs[i].filesz <= (
        #[trigger] segs[j]).paddr
}

/// Without mappings every address stays where it is.
proof fn lemma_no_mapping(paddr: u32)
    ensures
        spec_map_paddr(Seq::empty(), paddr) == paddr,
        map_paddr_defined(Seq::empty(), paddr),
{
    assert(first_mapping_from(Seq::<AddressMapping>::empty(), paddr, 0) is None);
}

/// Ordered plain segments are all kept, none rejected.
proof fn lemma_ordered_segments_kept(segs: Seq<ElfSegment>, last: u32)
    requires
        ordered_plain_segments(segs, last as int),
    ensures
        collect_segments_defined(segs, Seq::empty(), last),
        collect_segments(segs, Seq::empty(), last) is Ok,
        segs.len() > 0 ==> collect_segments(segs, Seq::empty(), last)->Ok_0.0.len() > 0
            && collect_segments(segs, Seq::empty(), last)->Ok_0.0[0].0 == segs[0].paddr,
    decreases segs.len(),
{
    if segs.len() > 0 {
        let s0 = segs[0];
        assert(plain_segment(s0));
        lemma_no_mapping(s0.paddr);
        let rest = segs.drop_first();
        let last2 = (s0.paddr + s0.filesz) as u32;
        assert forall|i: int| 0 <= i < rest.len() implies plain_segment(#[trigger] rest[i]) by {
            assert(rest[i] == segs[i + 1]);
            assert(plain_segment(segs[i + 1]));
        }
        assert forall|i: int, j: int| 0 <= i < j < rest.len() implies (#[trigger] rest[i]).paddr
            + rest[i].filesz <= (#[trigger] rest[j]).paddr by {
            assert(rest[i] == segs[i + 1]);
            assert(rest[j] == segs[j + 1]);
            assert(segs[i + 1].paddr + segs[i + 1].filesz <= segs[j + 1].paddr);
        }
        if rest.len() > 0 {
            assert(rest[0] == segs[1]);
            assert(segs[0].paddr + segs[0].filesz <= segs[1].paddr);
        }
        lemma_ordered_segments_kept(rest, last2);
    }
}

/// Segments in address order are accepted: an image whose loadable segments
/// are whole, outside the prelude, and each start at or after the end of the
/// one before (a segment may start exactly where the previous one ends),
/// with its entry point 0x131 past the first segment, is produced without
/// mappings or a size limit, and runs from the first segment's address. So a
/// segment is refused as out of order only when it starts before the end of
/// an earlier kept one.
pub proof fn lemma_ordered_segments_accepted(f: ElfImage)
    requires
        f.segments@.len() > 0,
        ordered_plain_segments(f.segments@, 0),
        f.entry == f.segments@[0].paddr + 0x131,
    ensures
        objcopy_defined(seq![f], Seq::empty()),
        spec_objcopy(seq![f], Seq::empty(), None) is Ok,
        spec_objcopy(seq![f], Seq::empty(), None)->Ok_0.1 == f.segments@[0].paddr,
{
    let ms = Seq::<AddressMapping>::empty();
    lemma_ordered_segments_kept(f.segments@, 0);
    lemma_no_mapping(f.entry);
    let (segs, l) = collect_segments(f.segments@, ms, 0)->Ok_0;
    assert(spec_get_segments(0, f, ms, 0) == Ok::<(Seq<SegmentView>, u32), ObjcopyError>((segs, l)));
    assert(get_segments_defined(f, ms, 0));
    let files = seq![f];
    assert(files[0] == f);
    assert(files.drop_first() =~= Seq::<ElfImage>::empty());
    assert(collect_files(files.drop_first(), ms, l, 1) == Ok::<(Seq<SegmentView>, u32), ObjcopyError>(
        (Seq::empty(), l),
    ));
    assert(segs + Seq::<SegmentView>::empty() =~= segs);
    assert(collect_files(files, ms, 0, 0) == Ok::<(Seq<SegmentView>, u32), ObjcopyError>((segs, l)));
    assert(collect_files_defined(files.drop_first(), ms, l, 1));
    assert(collect_files_defined(files, ms, 0, 0));
}

} // verus!
