//! The Sv39 paging scheme: pages, page ranges and the page manager's bookkeeping.
//!
//! Addresses are 39 bits wide and pages hold 4096 bytes, so a virtual page number has 27 bits.
//! An address beyond that width is cut down to its low 39 bits before it is split into pages.

use crate::flags::{self, VmFlags, OWNED};
use crate::flags::{EXECUTE, READ, WRITE};
use vstd::prelude::*;

verus! {

/// The number of address bits inside a page.
pub const PAGE_BITS: usize = 12;

/// The number of bytes of a page.
pub const PAGE_SIZE: usize = 4096;

/// The number of virtual addresses.
pub const V_ADDR_COUNT: u64 = 0x80_0000_0000;

/// The number of virtual pages.
pub const VPN_COUNT: usize = 0x800_0000;

/// The highest virtual page.
pub const VPN_MAX: usize = 0x7ff_ffff;

/// The number of physical pages that an entry can point to.
pub const PPN_COUNT: u64 = 0x1000_0000_0000;

/// The level of the root page table.
pub const MAX_LEVEL: usize = 2;

/// The number of entries of a page table.
pub const TABLE_ENTRIES: usize = 512;

/// The page that holds an address.
pub open spec fn floor_page(addr: int) -> int {
    (addr % V_ADDR_COUNT as int) / PAGE_SIZE as int
}

/// The first page that starts at an address or above it.
pub open spec fn ceil_page(addr: int) -> int {
    (addr % V_ADDR_COUNT as int + (PAGE_SIZE - 1)) / PAGE_SIZE as int
}

/// The virtual address of the first byte of a page, with bit 38 carried into the bits above it.
pub open spec fn page_base(vpn: int) -> int {
    let low = (vpn % VPN_COUNT as int) * PAGE_SIZE;
    if low < V_ADDR_COUNT / 2 {
        low
    } else {
        low + (0x1_0000_0000_0000_0000 - V_ADDR_COUNT)
    }
}

/// The place of a page in the page table of `level` that covers it.
pub open spec fn page_index(vpn: int, level: int) -> int {
    if level == 0 {
        vpn % 512
    } else if level == 1 {
        (vpn / 512) % 512
    } else {
        (vpn / 0x4_0000) % 512
    }
}

/// The page that holds an address.
pub fn vaddr_floor(addr: usize) -> (vpn: usize)
    ensures
        vpn == floor_page(addr as int),
        vpn <= VPN_MAX,
{
    let low: u64 = addr as u64 % V_ADDR_COUNT;
    (low / 4096) as usize
}

/// The first page that starts at an address or above it.
pub fn vaddr_ceil(addr: usize) -> (vpn: usize)
    ensures
        vpn == ceil_page(addr as int),
        vpn <= VPN_COUNT,
{
    let low: u64 = addr as u64 % V_ADDR_COUNT;
    ((low + 4095) / 4096) as usize
}

/// The virtual address of the first byte of a page.
pub fn vpn_base(vpn: usize) -> (addr: u64)
    ensures
        addr == page_base(vpn as int),
{
    let page: u64 = (vpn % VPN_COUNT) as u64;
    let low: u64 = page * 4096;
    if low < V_ADDR_COUNT / 2 {
        low
    } else {
        low + (u64::MAX - V_ADDR_COUNT + 1)
    }
}

/// The place of a page in the page table of `level` that covers it.
pub fn vpn_index_in(vpn: usize, level: usize) -> (index: usize)
    requires
        level <= MAX_LEVEL,
    ensures
        index == page_index(vpn as int, level as int),
        index < TABLE_ENTRIES,
{
    if level == 0 {
        vpn % 512
    } else if level == 1 {
        (vpn / 512) % 512
    } else {
        (vpn / 0x4_0000) % 512
    }
}

/// A run of virtual pages: `start` is in it, `end` is not.
#[derive(Clone, Copy, PartialEq, Eq, Structural, Debug)]
pub struct PageRange {
    /// The first page.
    pub start: usize,
    /// The page behind the last one.
    pub end: usize,
}

impl PageRange {
    /// Whether a page is in the range.
    pub open spec fn holds(self, vpn: int) -> bool {
        self.start <= vpn < self.end
    }

    /// Whether the two ranges run into each other.
    ///
    /// For ranges that hold a page each this says that they share one.
    pub open spec fn meets(self, other: PageRange) -> bool {
        self.start < other.end && other.start < self.end
    }
}

/// The pages from the one that holds `start` up to the last one that `end` reaches into.
pub open spec fn pages_between(start: int, end: int) -> PageRange {
    PageRange { start: floor_page(start) as usize, end: ceil_page(end) as usize }
}

/// The pages from the one that holds `start` up to the last one that `end` reaches into.
pub fn page_range(start: usize, end: usize) -> (range: PageRange)
    ensures
        range == pages_between(start as int, end as int),
        range.start == floor_page(start as int),
        range.end == ceil_page(end as int),
        range.start <= VPN_MAX,
        range.end <= VPN_COUNT,
{
    PageRange { start: vaddr_floor(start), end: vaddr_ceil(end) }
}

/// The Sv39 scheme.
#[derive(Clone, Copy, PartialEq, Eq, PartialOrd, Ord, Hash, Debug)]
pub struct Sv39;

impl Sv39 {
    /// Whether a page table entry points to a page and not to a further page table.
    pub fn is_leaf(value: usize) -> (leaf: bool)
        ensures
            leaf == (flags::has_flag(value as int, READ as int) || flags::has_flag(value as int, WRITE as int)
                || flags::has_flag(value as int, EXECUTE as int)),
    {
        assert((value & 0b1110 != 0) == ((value / 2) % 2 == 1 || (value / 4) % 2 == 1 || (value / 8)
            % 2 == 1)) by (bit_vector);
        value & 0b1110 != 0
    }
}

/// The size and alignment of a block of whole pages.
#[derive(Clone, Copy, PartialEq, Eq, Structural, Debug)]
pub struct PageLayout {
    /// The size in bytes.
    pub size: usize,
    /// The alignment in bytes.
    pub align: usize,
}

/// What becomes of a page table entry's pages when they are given up.
#[derive(Clone, Copy, PartialEq, Eq, Debug)]
pub struct Release {
    /// The number of pages given back.
    pub pages: usize,
    /// The block to hand to the allocator: its address and its layout.
    pub block: Option<(u64, PageLayout)>,
}

/// The physical page that a page table entry points to.
pub open spec fn entry_page(pte: int) -> int {
    (pte / 1024) % PPN_COUNT as int
}

/// Decisions of the page manager of an address space.
///
/// Physical pages are reached at the virtual address of the same number.
pub struct Sv39Manager {
    /// The address of the root page table.
    pub root: usize,
}

impl Sv39Manager {
    /// The layout of `count` pages.
    pub fn page_layout(count: usize) -> (layout: PageLayout)
        requires
            count * PAGE_SIZE <= isize::MAX,
        ensures
            layout.size == count * PAGE_SIZE,
            layout.align == PAGE_SIZE,
            layout.size == count * 4096,
            layout.align == 4096,
    {
        PageLayout { size: count * PAGE_SIZE, align: PAGE_SIZE }
    }

    /// The physical page of the root page table.
    pub fn root_ppn(&self) -> (ppn: usize)
        ensures
            ppn == self.root as int / PAGE_SIZE as int,
            ppn * 4096 <= self.root < ppn * 4096 + 4096,
    {
        self.root / PAGE_SIZE
    }

    /// The address at which a physical page is reached.
    pub fn p_to_v(&self, ppn: usize) -> (addr: u64)
        ensures
            addr == page_base(ppn as int),
    {
        vpn_base(ppn)
    }

    /// The physical page that is reached at an address.
    pub fn v_to_p(&self, addr: usize) -> (ppn: usize)
        ensures
            ppn == floor_page(addr as int),
    {
        vaddr_floor(addr)
    }

    /// Whether the kernel's allocator handed out the pages behind an entry.
    pub fn check_owned(&self, pte: u64) -> (owned: bool)
        ensures
            owned == flags::has_flag(pte as int, OWNED as int),
    {
        (pte / OWNED as u64) % 2 == 1
    }

    /// The attributes with which freshly allocated pages are mapped: those asked for, and the
    /// mark of the kernel's allocator.
    pub fn allocate(&self, flags: VmFlags) -> (marked: VmFlags)
        ensures
            marked.bits == if flags::has_flag(flags.bits as int, OWNED as int) {
                flags.bits as int
            } else {
                flags.bits + OWNED
            },
    {
        let bits: usize = flags.bits;
        assert((bits / 256) % 2 == 1 ==> bits | 256 == bits) by (bit_vector);
        assert((bits / 256) % 2 != 1 ==> bits | 256 == bits + 256) by (bit_vector);
        VmFlags { bits: bits | OWNED }
    }

    /// Gives up the `len` pages behind an entry.
    ///
    /// Pages that the kernel's allocator did not hand out stay where they are, and none is
    /// counted as given back.
    pub fn deallocate(&self, pte: u64, len: usize) -> (release: Release)
        requires
            len * PAGE_SIZE <= isize::MAX,
        ensures
            !flags::has_flag(pte as int, OWNED as int) ==> release.pages == 0 && release.block is None,
            flags::has_flag(pte as int, OWNED as int) ==> release.pages == len && release.block == Some(
                (
                    page_base(entry_page(pte as int)) as u64,
                    (PageLayout { size: (len * PAGE_SIZE) as usize, align: PAGE_SIZE }),
                ),
            ),
    {
        if !self.check_owned(pte) {
            return Release { pages: 0, block: None };
        }
        let ppn: u64 = (pte / 1024) % PPN_COUNT;
        let vpn: usize = (ppn % VPN_COUNT as u64) as usize;
        let addr = vpn_base(vpn);
        Release { pages: len, block: Some((addr, Self::page_layout(len))) }
    }
}

/// Physical pages and the addresses at which they are reached correspond: going from a page to its
/// address and back gives the page, and going from the address of a page to the page and back gives
/// the address, as long as neither has more bits than Sv39 addresses distinguish.
pub proof fn law_pages_are_reached_at_their_number(ppn: int, addr: int)
    requires
        0 <= ppn < VPN_COUNT,
        0 <= addr < V_ADDR_COUNT / 2,
        addr % PAGE_SIZE as int == 0,
    ensures
        floor_page(page_base(ppn)) == ppn,
        page_base(floor_page(addr)) == addr,
        ppn < VPN_COUNT / 2 ==> page_base(ppn) == ppn * PAGE_SIZE,
{
}

/// The page of an address is the one whose 4096 bytes the address is among, and the first page from
/// an address on starts there or less than a page above; both go by the low 39 bits of the address.
pub proof fn law_pages_hold_their_addresses(addr: int)
    requires
        0 <= addr,
    ensures
        0 <= floor_page(addr) * 4096 <= addr % 0x80_0000_0000 < floor_page(addr) * 4096 + 4096,
        addr % 0x80_0000_0000 <= ceil_page(addr) * 4096 < addr % 0x80_0000_0000 + 4096,
{
}

/// What is computed of an address is its page, the first page from it on, and, of two addresses, the
/// pages from the one to the other.
pub proof fn law_computed_pages_hold_their_addresses(
    addr: usize,
    other: usize,
    floor: usize,
    ceil: usize,
    range: PageRange,
    manager: Sv39Manager,
    reached: usize,
)
    requires
        call_ensures(vaddr_floor, (addr,), floor),
        call_ensures(vaddr_ceil, (other,), ceil),
        call_ensures(page_range, (addr, other), range),
        call_ensures(Sv39Manager::v_to_p, (&manager, addr), reached),
    ensures
        floor * 4096 <= addr as int % 0x80_0000_0000 < floor * 4096 + 4096,
        other as int % 0x80_0000_0000 <= ceil * 4096 < other as int % 0x80_0000_0000 + 4096,
        range.start == floor,
        range.end == ceil,
        reached == floor,
{
}

/// A page's address is its number times 4096 in the low 39 bits, and the bits above repeat the
/// highest of them.
pub proof fn law_page_addresses_are_canonical(
    vpn: usize,
    base: u64,
    manager: Sv39Manager,
    reached: u64,
)
    requires
        call_ensures(vpn_base, (vpn,), base),
        call_ensures(Sv39Manager::p_to_v, (&manager, vpn), reached),
    ensures
        base as int % 0x80_0000_0000 == (vpn as int % 0x800_0000) * 4096,
        base < 0x40_0000_0000 || base >= 0xffff_ffc0_0000_0000,
        reached == base,
{
}

/// The places of a page in the page tables of the three levels are the digits of its number in base
/// 512: two pages have the same three places only where they are the same page.
pub proof fn law_places_tell_pages_apart(vpn: usize, low: usize, middle: usize, high: usize)
    requires
        call_ensures(vpn_index_in, (vpn, 0usize), low),
        call_ensures(vpn_index_in, (vpn, 1usize), middle),
        call_ensures(vpn_index_in, (vpn, 2usize), high),
    ensures
        low < 512 && middle < 512 && high < 512,
        vpn as int % 0x800_0000 == high * 0x4_0000 + middle * 512 + low,
{
}

/// Two ranges that hold pages run into each other exactly where some page is in both.
pub proof fn law_ranges_meet_where_they_share_a_page(a: PageRange, b: PageRange)
    requires
        a.start < a.end,
        b.start < b.end,
    ensures
        a.meets(b) <==> exists|vpn: int| #[trigger] a.holds(vpn) && b.holds(vpn),
        forall|vpn: int| #[trigger] a.holds(vpn) == (a.start <= vpn < a.end),
{
    if a.meets(b) {
        let vpn: int = if a.start <= b.start {
            b.start as int
        } else {
            a.start as int
        };
        assert(a.holds(vpn) && b.holds(vpn));
    }
}

/// The page manager goes by the bits of an entry: the mark of the kernel's allocator is bit 8, a page
/// is behind an entry that can be read, written or executed, and fresh pages carry the mark besides
/// the attributes asked for.
pub proof fn law_entries_are_read_by_their_bits(
    manager: Sv39Manager,
    pte: u64,
    owned: bool,
    value: usize,
    leaf: bool,
    asked: VmFlags,
    marked: VmFlags,
)
    requires
        call_ensures(Sv39Manager::check_owned, (&manager, pte), owned),
        call_ensures(Sv39::is_leaf, (value,), leaf),
        call_ensures(Sv39Manager::allocate, (&manager, asked), marked),
    ensures
        owned == (pte & 0x100 != 0),
        leaf == (value & 0b1110 != 0),
        marked.bits == asked.bits | 0x100,
{
    let bits = asked.bits;
    assert((pte & 0x100 != 0) == ((pte / 256) % 2 == 1)) by (bit_vector);
    assert((value & 0b1110 != 0) == ((value / 2) % 2 == 1 || (value / 4) % 2 == 1 || (value / 8) % 2
        == 1)) by (bit_vector);
    assert((bits / 256) % 2 == 1 ==> bits | 0x100 == bits) by (bit_vector);
    assert((bits / 256) % 2 != 1 ==> bits | 0x100 == bits + 0x100) by (bit_vector);
}

/// Giving up pages hands the allocator exactly the block behind the entry: where the entry carries
/// the mark, all of its `len` pages at the address of its page number; else none.
pub proof fn law_owned_pages_go_back_whole(
    manager: Sv39Manager,
    pte: u64,
    len: usize,
    release: Release,
)
    requires
        len * 4096 <= isize::MAX,
        call_ensures(Sv39Manager::deallocate, (&manager, pte, len), release),
    ensures
        (pte as int / 256) % 2 == 0 ==> release.pages == 0 && release.block is None,
        (pte as int / 256) % 2 == 1 ==> {
            &&& release.pages == len
            &&& release.block matches Some((addr, layout))
            &&& addr as int % 0x80_0000_0000 == ((pte as int / 1024) % 0x800_0000) * 4096
            &&& addr < 0x40_0000_0000 || addr >= 0xffff_ffc0_0000_0000
            &&& layout.size == len * 4096
            &&& layout.align == 4096
        },
{
}

} // verus!
