//! Copying the image in slot B into slot A of the internal flash.
//!
//! The copy erases slot A and then programs it page by page from slot B. The
//! flash operations are performed by the caller; [`SlotCopy`] decides which
//! operation comes next from the status of the previous one.

use vstd::prelude::*;

verus! {

/// Why a slot copy stopped.
#[derive(Debug, PartialEq, Eq, Structural, Clone, Copy)]
pub enum LoadError {
    Init,
    Read,
    Erase,
    Program,
}

/// Copying slot B into slot A for a given length is not available.
pub fn load_slot_b_to_a_len(length: u32) -> (r: Result<(), LoadError>)
    ensures
        r == Err::<(), LoadError>(LoadError::Init),
{
    Err(LoadError::Init)
}

/// Where the two slots live and how large a flash page is.
#[derive(Debug, PartialEq, Eq, Structural, Clone, Copy)]
pub struct SlotLayout {
    pub slot_a_start: u32,
    pub slot_a_size: u32,
    pub slot_b_start: u32,
    pub page_size: u32,
}

impl SlotLayout {
    /// The layout admits a copy: pages are non-empty and no address
    /// computed while copying leaves the 32-bit range.
    pub open spec fn valid(self) -> bool {
        &&& self.page_size > 0
        &&& self.slot_a_size + self.page_size <= u32::MAX
        &&& self.slot_a_start + self.slot_a_size + self.page_size <= u32::MAX
        &&& self.slot_b_start + self.slot_a_size + self.page_size <= u32::MAX
    }
}

/// The next flash operation of a slot copy.
#[derive(Debug, PartialEq, Eq, Structural, Clone, Copy)]
pub enum CopyAction {
    /// Erase `size` bytes of internal flash from `start`.
    Erase { start: u32, size: u32 },
    /// Read `len` bytes at `src` and program them at `dst`.
    Program { src: u32, dst: u32, len: u32 },
    /// The copy is complete.
    Done,
    /// The copy stopped.
    Failed(LoadError),
}

/// Progress of a slot copy.
pub struct SlotCopy {
    layout: SlotLayout,
    offset: u32,
    erased: bool,
    finished: bool,
}

impl SlotCopy {
    pub closed spec fn spec_layout(&self) -> SlotLayout {
        self.layout
    }

    /// Offset in the slot of the page programmed last, once slot A is erased.
    pub closed spec fn spec_offset(&self) -> u32 {
        self.offset
    }

    /// Whether slot A has been erased.
    pub closed spec fn spec_erased(&self) -> bool {
        self.erased
    }

    pub closed spec fn spec_finished(&self) -> bool {
        self.finished
    }

    pub closed spec fn wf(&self) -> bool {
        &&& self.layout.valid()
        &&& self.offset <= self.layout.slot_a_size + self.layout.page_size
        &&& (self.erased && !self.finished) ==> self.offset < self.layout.slot_a_size
    }

    /// The program operation for the page at `offset`.
    pub open spec fn program_at(layout: SlotLayout, offset: u32) -> CopyAction {
        CopyAction::Program {
            src: (layout.slot_b_start + offset) as u32,
            dst: (layout.slot_a_start + offset) as u32,
            len: layout.page_size,
        }
    }

    /// Starts a copy: the first operation erases the whole of slot A.
    pub fn start(layout: SlotLayout) -> (r: (Self, CopyAction))
        requires
            layout.valid(),
        ensures
            r.0.wf(),
            r.0.spec_layout() == layout,
            r.0.spec_offset() == 0,
            !r.0.spec_erased(),
            !r.0.spec_finished(),
            r.1 == (CopyAction::Erase { start: layout.slot_a_start, size: layout.slot_a_size }),
    {
        (
            SlotCopy { layout, offset: 0, erased: false, finished: false },
            CopyAction::Erase { start: layout.slot_a_start, size: layout.slot_a_size },
        )
    }

    /// Takes the status of the last operation and gives the next one.
    ///
    /// A non-zero status stops the copy with `Erase` or `Program`, after the
    /// erase or a program operation respectively. Otherwise pages are
    /// programmed one after another, from offset 0 in steps of the page size,
    /// while their offset is below the slot size; then the copy is done.
    pub fn on_status(&mut self, status: u32) -> (a: CopyAction)
        requires
            old(self).wf(),
            !old(self).spec_finished(),
        ensures
            final(self).wf(),
            final(self).spec_layout() == old(self).spec_layout(),
            ({
                let l = old(self).spec_layout();
                let o = old(self).spec_offset();
                let erased = old(self).spec_erased();
                if status != 0 {
                    &&& a == CopyAction::Failed(
                        if erased { LoadError::Program } else { LoadError::Erase },
                    )
                    &&& final(self).spec_finished()
                } else {
                    let next = if erased { o + l.page_size } else { 0int };
                    &&& final(self).spec_erased()
                    &&& final(self).spec_offset() == next
                    &&& if next < l.slot_a_size {
                        a == Self::program_at(l, next as u32) && !final(self).spec_finished()
                    } else {
                        a == CopyAction::Done && final(self).spec_finished()
                    }
                }
            }),
    {
        if status != 0 {
            self.finished = true;
            return CopyAction::Failed(if self.erased { LoadError::Program } else { LoadError::Erase });
        }
        if self.erased {
            self.offset = self.offset + self.layout.page_size;
        } else {
            self.erased = true;
            self.offset = 0;
        }
        if self.offset < self.layout.slot_a_size {
            CopyAction::Program {
                src: self.layout.slot_b_start + self.offset,
                dst: self.layout.slot_a_start + self.offset,
                len: self.layout.page_size,
            }
        } else {
            self.finished = true;
            CopyAction::Done
        }
    }
}

} // verus!
