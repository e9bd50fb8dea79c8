//! Physical frames and the pages that cover a region of virtual memory.
//!
//! Frames are handed out from the usable regions of the firmware's memory
//! map, in the order of the map, by a cursor that only moves forward: no
//! frame is ever taken back. A region of virtual memory is mapped page by
//! page; which page comes next, and which frame backs it, is decided here,
//! while writing the page tables is left to the caller.

use vstd::prelude::*;
use x86_64::structures::paging::{Page, PhysFrame, Size4KiB};
use x86_64::{PhysAddr, VirtAddr};

verus! {

/// Size of a page and of a frame in bytes.
pub const PAGE_SIZE: u64 = 4096;

/// Physical addresses are below this bound (52 bits).
pub const PHYS_ADDR_LIMIT: u64 = 0x10_0000_0000_0000;

/// First address above the lower half of the virtual address space.
pub const LOWER_HALF_END: u64 = 0x8000_0000_0000;

/// First address of the upper half of the virtual address space.
pub const UPPER_HALF_START: u64 = 0xffff_8000_0000_0000;

/// Page-table flag: the mapping is present.
pub const FLAG_PRESENT: u64 = 1;

/// Page-table flag: the page may be written.
pub const FLAG_WRITABLE: u64 = 2;

/// Page-table flag: the page may be accessed from ring 3.
pub const FLAG_USER_ACCESSIBLE: u64 = 4;

/// An address is canonical if bits 48 to 63 repeat bit 47.
pub open spec fn spec_canonical(addr: u64) -> bool {
    addr < LOWER_HALF_END || addr >= UPPER_HALF_START
}

/// The greatest multiple of the page size that is not above `addr`.
pub open spec fn spec_align_down(addr: u64) -> u64 {
    (addr - addr % 4096) as u64
}

/// Calls `x86_64::VirtAddr::try_new` and says whether it accepted the
/// address. Trusted: the call accepts exactly the canonical addresses.
#[verifier::external_body]
fn virt_addr_valid(addr: u64) -> (valid: bool)
    ensures
        valid == spec_canonical(addr),
{
    VirtAddr::try_new(addr).is_ok()
}

/// Calls `x86_64::structures::paging::Page::containing_address` for 4 KiB
/// pages. Trusted: the page that holds a canonical address starts at the
/// address rounded down to the page size.
#[verifier::external_body]
fn containing_page(addr: u64) -> (start: u64)
    requires
        spec_canonical(addr),
    ensures
        start == spec_align_down(addr),
{
    Page::<Size4KiB>::containing_address(VirtAddr::new(addr)).start_address().as_u64()
}

/// Calls `x86_64::structures::paging::PhysFrame::containing_address` for
/// 4 KiB frames. Trusted: the frame that holds a physical address starts at
/// the address rounded down to the frame size.
#[verifier::external_body]
fn containing_frame(addr: u64) -> (start: u64)
    requires
        addr < PHYS_ADDR_LIMIT,
    ensures
        start == spec_align_down(addr),
{
    PhysFrame::<Size4KiB>::containing_address(PhysAddr::new(addr)).start_address().as_u64()
}

/// Whether `addr` is a canonical virtual address.
pub fn is_canonical(addr: u64) -> (valid: bool)
    ensures
        valid == spec_canonical(addr),
{
    virt_addr_valid(addr)
}

/// One entry of the firmware's memory map: the physical addresses from
/// `start` up to, not including, `end`, and whether they are free for use.
#[derive(Debug, Clone, Copy, PartialEq, Eq, Structural)]
pub struct MemoryRegion {
    pub start: u64,
    pub end: u64,
    pub usable: bool,
}

impl MemoryRegion {
    /// A usable region must lie within the physical address space.
    pub open spec fn valid(self) -> bool {
        self.usable && self.start < self.end ==> self.end <= PHYS_ADDR_LIMIT
    }

    /// Number of frames that the region yields: one for every 4096 bytes
    /// counted from its start, the last one possibly cut short by its end.
    pub open spec fn frame_count(self) -> nat {
        if self.usable && self.start < self.end {
            ((self.end - self.start + 4095) / 4096) as nat
        } else {
            0
        }
    }

    /// The frames of the region, in ascending order.
    pub open spec fn frames(self) -> Seq<u64> {
        Seq::new(self.frame_count(), |k: int| spec_align_down((self.start + 4096 * k) as u64))
    }

    fn count_frames(&self) -> (count: u64)
        requires
            self.valid(),
        ensures
            count == self.frame_count(),
    {
        if self.usable && self.start < self.end {
            (self.end - self.start + 4095) / 4096
        } else {
            0
        }
    }
}

/// Every region of the map is valid.
pub open spec fn valid_memory_map(regions: Seq<MemoryRegion>) -> bool {
    forall|i: int| 0 <= i < regions.len() ==> (#[trigger] regions[i]).valid()
}

/// The frames of all usable regions, in the order of the map.
pub open spec fn usable_frames(regions: Seq<MemoryRegion>) -> Seq<u64>
    decreases regions.len(),
{
    if regions.len() == 0 {
        Seq::empty()
    } else {
        usable_frames(regions.drop_last()) + regions.last().frames()
    }
}

proof fn lemma_usable_frames_take(regions: Seq<MemoryRegion>, i: int)
    requires
        0 <= i < regions.len(),
    ensures
        usable_frames(regions.take(i + 1)) == usable_frames(regions.take(i)) + regions[i].frames(),
{
    assert(regions.take(i + 1).drop_last() =~= regions.take(i));
}

proof fn lemma_usable_frames_prefix(regions: Seq<MemoryRegion>, i: int)
    requires
        0 <= i <= regions.len(),
    ensures
        usable_frames(regions.take(i)).len() <= usable_frames(regions).len(),
        forall|k: int|
            0 <= k < usable_frames(regions.take(i)).len() ==> usable_frames(regions)[k]
                == usable_frames(regions.take(i))[k],
    decreases regions.len() - i,
{
    if i == regions.len() {
        assert(regions.take(i) =~= regions);
    } else {
        lemma_usable_frames_take(regions, i);
        lemma_usable_frames_prefix(regions, i + 1);
    }
}

/// Hands out the usable frames of a memory map, one after the other.
pub struct BootInfoFrameAllocator {
    memory_regions: Vec<MemoryRegion>,
    next: usize,
}

impl BootInfoFrameAllocator {
    #[verifier::type_invariant]
    spec fn well_formed(self) -> bool {
        valid_memory_map(self.memory_regions@)
    }

    /// The memory map that the allocator was made from.
    pub closed spec fn regions(self) -> Seq<MemoryRegion> {
        self.memory_regions@
    }

    /// Number of frames asked for so far.
    pub closed spec fn cursor(self) -> nat {
        self.next as nat
    }

    /// The frame that the next allocation returns, if there is one.
    pub open spec fn peek(self) -> Option<u64> {
        if self.cursor() < usize::MAX && self.cursor() < usable_frames(self.regions()).len() {
            Some(usable_frames(self.regions())[self.cursor() as int])
        } else {
            None
        }
    }

    /// The cursor after one more allocation.
    pub open spec fn advanced(self) -> nat {
        if self.cursor() < usize::MAX {
            self.cursor() + 1
        } else {
            self.cursor()
        }
    }

    /// Makes an allocator over a memory map, with the cursor before the
    /// first usable frame. A map with a usable region that reaches outside
    /// the physical address space is refused.
    pub fn init(memory_regions: Vec<MemoryRegion>) -> (allocator: Option<Self>)
        ensures
            allocator.is_some() == valid_memory_map(memory_regions@),
            allocator matches Some(a) ==> a.regions() == memory_regions@ && a.cursor() == 0,
    {
        let mut i: usize = 0;
        while i < memory_regions.len()
            invariant
                0 <= i <= memory_regions.len(),
                forall|j: int| 0 <= j < i ==> (#[trigger] memory_regions@[j]).valid(),
            decreases memory_regions.len() - i,
        {
            let region = &memory_regions[i];
            if region.usable && region.start < region.end && region.end > PHYS_ADDR_LIMIT {
                assert(!memory_regions@[i as int].valid());
                return None;
            }
            i += 1;
        }
        Some(BootInfoFrameAllocator { memory_regions, next: 0 })
    }

    /// Number of frames asked for so far.
    pub fn allocated(&self) -> (count: usize)
        ensures
            count == self.cursor(),
    {
        self.next
    }

    /// Returns the next usable frame by its start address, or `None` when
    /// the map is used up. The cursor moves on either way, so a frame is
    /// never returned twice.
    pub fn allocate_frame(&mut self) -> (frame: Option<u64>)
        ensures
            frame == old(self).peek(),
            final(self).regions() == old(self).regions(),
            final(self).cursor() == old(self).advanced(),
    {
        proof {
            use_type_invariant(&*self);
        }
        let index = self.next;
        if index == usize::MAX {
            return None;
        }
        self.next = index + 1;
        let ghost regions = self.memory_regions@;
        let mut remaining: u64 = index as u64;
        let mut i: usize = 0;
        while i < self.memory_regions.len()
            invariant
                0 <= i <= self.memory_regions.len(),
                self.memory_regions@ == regions,
                old(self).memory_regions@ == regions,
                old(self).next == index,
                self.next == index + 1,
                valid_memory_map(regions),
                usable_frames(regions.take(i as int)).len() + remaining == index,
            decreases self.memory_regions.len() - i,
        {
            let region = &self.memory_regions[i];
            assert(regions[i as int].valid());
            let count = region.count_frames();
            proof {
                lemma_usable_frames_take(regions, i as int);
            }
            if remaining < count {
                let frame = containing_frame(region.start + 4096 * remaining);
                proof {
                    lemma_usable_frames_prefix(regions, i + 1);
                    let before = usable_frames(regions.take(i as int));
                    assert(usable_frames(regions.take(i + 1))[index as int]
                        == regions[i as int].frames()[remaining as int]);
                    assert(regions[i as int].frames()[remaining as int] == frame);
                }
                return Some(frame);
            }
            remaining -= count;
            i += 1;
        }
        assert(regions.take(i as int) =~= regions);
        None
    }
}

/// The page range that covers `size` bytes from `start`: the start address
/// of its first page and the number of pages. `None` where the addresses of
/// the region cannot be formed: `start`, `start + size` or the last byte is
/// not a canonical address, the sum overflows, or the pages run from one
/// half of the address space into the other or up to the end of the lower
/// half.
pub open spec fn spec_page_range(start: u64, size: u64) -> Option<(u64, nat)> {
    if !spec_canonical(start) || start + size > u64::MAX || start + size < 1 {
        None
    } else if !spec_canonical((start + size) as u64) || !spec_canonical((start + size - 1) as u64) {
        None
    } else {
        let first = spec_align_down(start);
        let last = spec_align_down((start + size - 1) as u64);
        if first > last {
            Some((first, 0nat))
        } else if (first < LOWER_HALF_END) != (last < LOWER_HALF_END) {
            None
        } else if last + 4096 == LOWER_HALF_END {
            None
        } else {
            Some((first, ((last - first) / 4096 + 1) as nat))
        }
    }
}

/// The start addresses of `count` pages in a row, the first at `first`.
pub open spec fn spec_pages(first: u64, count: nat) -> Seq<u64> {
    Seq::new(count, |k: int| (first + 4096 * k) as u64)
}

/// What the caller of [`PageCursor::next_page`] has to do next.
#[derive(Debug, Clone, Copy, PartialEq, Eq, Structural)]
pub enum MapStep {
    /// Map the page that starts at `page` to the frame that starts at
    /// `frame`, with these flags.
    MapPage { page: u64, frame: u64, flags: u64 },
    /// Every page of the region has been handed out.
    Finished,
    /// A page is left but no frame: the mapping has failed.
    OutOfFrames,
}

/// The pages of a region that are still to be mapped.
pub struct PageCursor {
    next: u64,
    remaining: u64,
    flags: u64,
}

impl PageCursor {
    #[verifier::type_invariant]
    spec fn well_formed(self) -> bool {
        self.remaining > 0 ==> self.next + 4096 * (self.remaining - 1) <= u64::MAX
    }

    /// Start addresses of the pages still to be mapped, in ascending order.
    pub closed spec fn pages(self) -> Seq<u64> {
        spec_pages(self.next, self.remaining as nat)
    }

    /// The flags that every page of the region is mapped with.
    pub closed spec fn page_flags(self) -> u64 {
        self.flags
    }

    /// Number of pages still to be mapped.
    pub fn remaining(&self) -> (count: u64)
        ensures
            count == self.pages().len(),
    {
        self.remaining
    }
}

/// Prepares the mapping of `size` bytes from `start_addr` to fresh frames:
/// returns the pages that cover the region, from the page of `start_addr`
/// to the page of the last byte, or `None` where the region's addresses
/// cannot be formed.
pub fn allocate_pages_mapper(start_addr: u64, size: u64, flags: u64) -> (cursor: Option<
    PageCursor,
>)
    ensures
        cursor.is_some() == spec_page_range(start_addr, size).is_some(),
        cursor matches Some(c) ==> {
            &&& c.pages() == spec_pages(
                spec_page_range(start_addr, size).unwrap().0,
                spec_page_range(start_addr, size).unwrap().1,
            )
            &&& c.page_flags() == flags
        },
{
    if !is_canonical(start_addr) {
        return None;
    }
    let end = match start_addr.checked_add(size) {
        Some(end) => end,
        None => {
            return None;
        },
    };
    if end == 0 || !is_canonical(end) || !is_canonical(end - 1) {
        return None;
    }
    let first = containing_page(start_addr);
    let last = containing_page(end - 1);
    if first > last {
        return Some(PageCursor { next: first, remaining: 0, flags });
    }
    if (first < LOWER_HALF_END) != (last < LOWER_HALF_END) {
        return None;
    }
    if last == LOWER_HALF_END - PAGE_SIZE {
        return None;
    }
    let count = (last - first) / PAGE_SIZE + 1;
    Some(PageCursor { next: first, remaining: count, flags })
}

impl PageCursor {
    /// Takes the next page of the region and a fresh frame for it. When no
    /// page is left the frame allocator is not touched. When a page is left
    /// a frame is asked for: if there is one the page leaves the cursor, if
    /// there is none the cursor stays as it is.
    pub fn next_page(&mut self, frame_allocator: &mut BootInfoFrameAllocator) -> (step: MapStep)
        ensures
            final(frame_allocator).regions() == old(frame_allocator).regions(),
            final(self).page_flags() == old(self).page_flags(),
            old(self).pages().len() == 0 ==> {
                &&& step == MapStep::Finished
                &&& final(self).pages() == old(self).pages()
                &&& final(frame_allocator).cursor() == old(frame_allocator).cursor()
            },
            old(self).pages().len() > 0 ==> {
                &&& final(frame_allocator).cursor() == old(frame_allocator).advanced()
                &&& match old(frame_allocator).peek() {
                    Some(frame) => {
                        &&& step == MapStep::MapPage {
                            page: old(self).pages()[0],
                            frame,
                            flags: old(self).page_flags(),
                        }
                        &&& final(self).pages() == old(self).pages().skip(1)
                    },
                    None => {
                        &&& step == MapStep::OutOfFrames
                        &&& final(self).pages() == old(self).pages()
                    },
                }
            },
    {
        proof {
            use_type_invariant(&*self);
        }
        if self.remaining == 0 {
            return MapStep::Finished;
        }
        match frame_allocator.allocate_frame() {
            None => MapStep::OutOfFrames,
            Some(frame) => {
                let page = self.next;
                let ghost before = self.pages();
                if self.remaining > 1 {
                    self.remaining = self.remaining - 1;
                    self.next = page + PAGE_SIZE;
                } else {
                    self.remaining = 0;
                }
                assert(self.pages() =~= before.skip(1));
                MapStep::MapPage { page, frame, flags: self.flags }
            },
        }
    }
}

/// What an entry of a page table points to.
#[derive(Debug, Clone, Copy, PartialEq, Eq, Structural)]
pub enum EntryFrame {
    /// A frame, by its start address.
    Frame(u64),
    /// Nothing: the entry is not present.
    NotPresent,
    /// A huge page, which is not supported.
    HugeFrame,
}

impl EntryFrame {
    /// The start address of a frame is a multiple of the frame size and
    /// lies within the physical address space.
    pub open spec fn valid(self) -> bool {
        self matches EntryFrame::Frame(start) ==> start % 4096 == 0 && start < PHYS_ADDR_LIMIT
    }
}

/// Where the translation of an address stands.
#[derive(Debug, Clone, Copy, PartialEq, Eq, Structural)]
pub enum WalkStep {
    /// Read entry `index` of the page table in the frame `table` and hand
    /// it in.
    Read { table: u64, index: u16 },
    /// The address is mapped to this physical address.
    Mapped(u64),
    /// The address is not mapped.
    NotMapped,
    /// The address lies in a huge page.
    HugePage,
}

/// The index into the page table of `level` (4 for the topmost, 1 for the
/// lowest) that the address selects: nine bits, those of level 1 just
/// above the twelve bits of the offset within the page.
pub open spec fn spec_table_index(addr: u64, level: int) -> u16 {
    if level == 4 {
        ((addr >> 39) & 0x1ff) as u16
    } else if level == 3 {
        ((addr >> 30) & 0x1ff) as u16
    } else if level == 2 {
        ((addr >> 21) & 0x1ff) as u16
    } else {
        ((addr >> 12) & 0x1ff) as u16
    }
}

/// The offset of the address within its page: its lowest twelve bits.
pub open spec fn spec_page_offset(addr: u64) -> u64 {
    addr & 0xfff
}

/// The index into the page table of `level` that the address selects.
pub fn table_index(addr: u64, level: u8) -> (index: u16)
    requires
        1 <= level <= 4,
    ensures
        index == spec_table_index(addr, level as int),
        index < 512,
{
    assert((addr >> 39) & 0x1ff < 512) by (bit_vector);
    assert((addr >> 30) & 0x1ff < 512) by (bit_vector);
    assert((addr >> 21) & 0x1ff < 512) by (bit_vector);
    assert((addr >> 12) & 0x1ff < 512) by (bit_vector);
    if level == 4 {
        ((addr >> 39) & 0x1ff) as u16
    } else if level == 3 {
        ((addr >> 30) & 0x1ff) as u16
    } else if level == 2 {
        ((addr >> 21) & 0x1ff) as u16
    } else {
        ((addr >> 12) & 0x1ff) as u16
    }
}

/// The translation of a virtual address, one page table at a time.
#[derive(Debug, Clone, Copy, PartialEq, Eq, Structural)]
pub struct AddressWalk {
    /// The address that is translated.
    pub addr: u64,
    /// The level of the page table that is read next; zero when the
    /// translation has ended.
    pub level: u8,
}

impl AddressWalk {
    /// The level is one of the four, or zero.
    pub open spec fn valid(self) -> bool {
        self.level <= 4
    }

    /// The step that follows when the entry read was `entry`.
    pub open spec fn spec_advance(self, entry: EntryFrame) -> (AddressWalk, WalkStep) {
        if self.level == 0 {
            (self, WalkStep::NotMapped)
        } else {
            match entry {
                EntryFrame::NotPresent => (
                    AddressWalk { addr: self.addr, level: 0 },
                    WalkStep::NotMapped,
                ),
                EntryFrame::HugeFrame => (
                    AddressWalk { addr: self.addr, level: 0 },
                    WalkStep::HugePage,
                ),
                EntryFrame::Frame(start) => if self.level == 1 {
                    (
                        AddressWalk { addr: self.addr, level: 0 },
                        WalkStep::Mapped((start + spec_page_offset(self.addr)) as u64),
                    )
                } else {
                    (
                        AddressWalk { addr: self.addr, level: (self.level - 1) as u8 },
                        WalkStep::Read {
                            table: start,
                            index: spec_table_index(self.addr, self.level - 1),
                        },
                    )
                },
            }
        }
    }

    /// Takes the entry that was read and says how the translation goes
    /// on: with the page table one level down, or, at the lowest level,
    /// with the physical address, which is the start of the frame plus the
    /// offset within the page. An entry that is not present ends the
    /// translation: the address is not mapped.
    pub fn advance(&mut self, entry: EntryFrame) -> (step: WalkStep)
        requires
            old(self).valid(),
            entry.valid(),
        ensures
            final(self).valid(),
            (*final(self), step) == old(self).spec_advance(entry),
    {
        if self.level == 0 {
            return WalkStep::NotMapped;
        }
        match entry {
            EntryFrame::NotPresent => {
                self.level = 0;
                WalkStep::NotMapped
            },
            EntryFrame::HugeFrame => {
                self.level = 0;
                WalkStep::HugePage
            },
            EntryFrame::Frame(start) => {
                if self.level == 1 {
                    self.level = 0;
                    let addr = self.addr;
                    assert(addr & 0xfff < 4096) by (bit_vector);
                    WalkStep::Mapped(start + (self.addr & 0xfff))
                } else {
                    self.level = self.level - 1;
                    WalkStep::Read { table: start, index: table_index(self.addr, self.level) }
                }
            },
        }
    }
}

/// Begins the translation of the virtual address `addr` through the page
/// tables whose topmost table lies in the frame `level_4_frame`: the first
/// entry to read is that of the topmost table.
pub fn translate_addr(addr: u64, level_4_frame: u64) -> (begun: (AddressWalk, WalkStep))
    ensures
        begun.0 == (AddressWalk { addr, level: 4 }),
        begun.1 == (WalkStep::Read { table: level_4_frame, index: spec_table_index(addr, 4) }),
{
    (
        AddressWalk { addr, level: 4 },
        WalkStep::Read { table: level_4_frame, index: table_index(addr, 4) },
    )
}

} // verus!
