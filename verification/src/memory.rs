//! Mapping and unmapping memory on a program's behalf.
//!
//! A program's areas are the page ranges that are mapped in its address space.

use crate::flags::{self, flags_from_bytes, VmFlags, EXECUTE, READ, USER, VALID, WRITE};
use crate::sv39::{self, page_range, PageRange, PAGE_SIZE};
use crate::syscall::{self, SyscallContext};
use vstd::prelude::*;

verus! {

/// Pages to be mapped to fresh memory, all bytes zero.
#[derive(Clone, Copy, PartialEq, Eq, Structural, Debug)]
pub struct FreshPages {
    /// The pages.
    pub range: PageRange,
    /// Their attributes.
    pub flags: VmFlags,
}

/// The answer to a request to map memory.
#[derive(Clone, Copy, PartialEq, Eq, Structural, Debug)]
pub struct MmapReply {
    /// What the call returns, once the pages are mapped.
    pub ret: isize,
    /// The pages to map to fresh memory.
    pub map: Option<FreshPages>,
}

/// The answer to a request to unmap memory.
#[derive(Clone, Copy, PartialEq, Eq, Structural, Debug)]
pub struct MunmapReply {
    /// What the call returns, once the pages are unmapped.
    pub ret: isize,
    /// The pages to unmap.
    pub range: Option<PageRange>,
}

/// The pages of `len` bytes at `addr`.
pub open spec fn request_pages(addr: int, len: int) -> PageRange {
    sv39::pages_between(addr, addr + len)
}

/// Whether a range runs into one of the areas.
pub open spec fn meets_area(areas: Seq<PageRange>, range: PageRange) -> bool {
    exists|i: int| 0 <= i < areas.len() && (#[trigger] areas[i]).meets(range)
}

/// Whether a page is in one of the areas.
pub open spec fn in_area(areas: Seq<PageRange>, vpn: int) -> bool {
    exists|i: int| 0 <= i < areas.len() && (#[trigger] areas[i]).holds(vpn)
}

/// Whether a request to map memory is granted, `areas` being what the caller has mapped: it starts
/// on a page boundary, asks for some access and for no unknown one, stays within the address
/// range, and runs into nothing that is mapped.
pub open spec fn mmap_granted(areas: Seq<PageRange>, addr: int, len: int, prot: int) -> bool {
    &&& addr % PAGE_SIZE as int == 0
    &&& 1 <= prot <= 7
    &&& addr + len <= usize::MAX
    &&& !meets_area(areas, request_pages(addr, len))
}

/// Whether a request to unmap memory is granted, `areas` being what the caller has mapped: it
/// starts on a page boundary, stays within the address range, and all its pages are mapped.
pub open spec fn munmap_granted(areas: Seq<PageRange>, addr: int, len: int) -> bool {
    &&& addr % PAGE_SIZE as int == 0
    &&& addr + len <= usize::MAX
    &&& forall|vpn: int| request_pages(addr, len).holds(vpn) ==> #[trigger] in_area(areas, vpn)
}

/// Every page that starts from `start` on and below `end` is in one of the areas.
pub open spec fn pages_all_in_areas(areas: Seq<PageRange>, start: int, end: int) -> bool {
    forall|vpn: int| start <= vpn * 4096 < end ==> #[trigger] in_area(areas, vpn)
}

/// The attributes of a program's memory, by the access that the program has to it.
pub open spec fn access_bits(read: bool, write: bool, execute: bool) -> int {
    USER + VALID + flags::contribution(execute, EXECUTE) + flags::contribution(write, WRITE)
        + flags::contribution(read, READ)
}

/// The attributes of memory mapped for a program with the access `prot`: 1 to read, 2 to write,
/// 4 to execute.
pub open spec fn prot_bits(prot: int) -> int {
    access_bits(prot % 2 == 1, (prot / 2) % 2 == 1, (prot / 4) % 2 == 1)
}

/// The attributes of a program's memory, by the access that the program has to it.
pub fn access_flags(read: bool, write: bool, execute: bool) -> (flags: VmFlags)
    ensures
        flags.bits == access_bits(read, write, execute),
        flags.bits == 17 + (if read {
            2int
        } else {
            0int
        }) + (if write {
            4int
        } else {
            0int
        }) + (if execute {
            8int
        } else {
            0int
        }),
{
    let fill: u8 = 0x5f;
    let x: u8 = if execute {
        flags::LETTER_X
    } else {
        fill
    };
    let w: u8 = if write {
        flags::LETTER_W
    } else {
        fill
    };
    let r: u8 = if read {
        flags::LETTER_R
    } else {
        fill
    };
    let text: [u8; 5] = [flags::LETTER_U, x, w, r, flags::LETTER_V];
    assert(text@[0] == flags::LETTER_U && text@[1] == x && text@[2] == w && text@[3] == r
        && text@[4] == flags::LETTER_V);
    flags_from_bytes(&text)
}

/// Whether a range runs into one of the areas.
fn any_area_meets(areas: &Vec<PageRange>, range: PageRange) -> (found: bool)
    ensures
        found == meets_area(areas@, range),
{
    let mut i: usize = 0;
    while i < areas.len()
        invariant
            i <= areas@.len(),
            forall|j: int| 0 <= j < i ==> !(#[trigger] areas@[j]).meets(range),
        decreases areas@.len() - i,
    {
        let area = areas[i];
        if area.start < range.end && range.start < area.end {
            assert(areas@[i as int].meets(range));
            return true;
        }
        i += 1;
    }
    false
}

/// Whether a page is in one of the areas.
fn any_area_holds(areas: &Vec<PageRange>, vpn: usize) -> (found: bool)
    ensures
        found == in_area(areas@, vpn as int),
{
    let mut i: usize = 0;
    while i < areas.len()
        invariant
            i <= areas@.len(),
            forall|j: int| 0 <= j < i ==> !(#[trigger] areas@[j]).holds(vpn as int),
        decreases areas@.len() - i,
    {
        let area = areas[i];
        if area.start <= vpn && vpn < area.end {
            assert(areas@[i as int].holds(vpn as int));
            return true;
        }
        i += 1;
    }
    false
}

/// Whether all pages of a range are in the areas.
fn all_pages_held(areas: &Vec<PageRange>, range: PageRange) -> (held: bool)
    ensures
        held == forall|vpn: int| range.holds(vpn) ==> #[trigger] in_area(areas@, vpn),
{
    let mut vpn: usize = range.start;
    while vpn < range.end
        invariant
            range.start <= vpn,
            forall|p: int| range.start <= p < vpn ==> #[trigger] in_area(areas@, p),
        decreases range.end - vpn,
    {
        if !any_area_holds(areas, vpn) {
            assert(range.holds(vpn as int) && !in_area(areas@, vpn as int));
            return false;
        }
        vpn += 1;
    }
    true
}

impl SyscallContext {
    /// Maps `len` bytes at `addr` to fresh memory with the access `prot`, where `areas` is what
    /// the caller has mapped; there is none where there is no such process.
    ///
    /// A request that is not granted is answered -1. One that is granted maps all pages that its
    /// bytes touch; where these are none, nothing is mapped.
    ///
    /// The start and the end of a request are cut down to the 39 bits of an address first. So the
    /// pages of a request that reaches beyond them may end before they start, may be none, or may
    /// be fewer than its bytes touch.
    pub fn mmap(
        &self,
        areas: Option<&Vec<PageRange>>,
        addr: usize,
        len: usize,
        prot: i32,
    ) -> (reply: MmapReply)
        ensures
            (areas is None || !mmap_granted(areas->0@, addr as int, len as int, prot as int)) ==> {
                &&& reply.ret == -1
                &&& reply.map is None
            },
            areas is Some && mmap_granted(areas->0@, addr as int, len as int, prot as int) ==> ({
                let pages = request_pages(addr as int, len as int);
                &&& reply.ret == 0
                &&& reply.map == if pages.start == pages.end {
                    None
                } else {
                    Some(
                        (FreshPages {
                            range: pages,
                            flags: VmFlags { bits: prot_bits(prot as int) as usize },
                        }),
                    )
                }
            }),
    {
        let refused = MmapReply { ret: -1, map: None };
        if addr % PAGE_SIZE != 0 {
            return refused;
        }
        if prot < 1 || prot > 7 {
            return refused;
        }
        let end_addr: usize = match addr.checked_add(len) {
            Some(end_addr) => end_addr,
            None => return refused,
        };
        let range = page_range(addr, end_addr);
        let areas = match areas {
            Some(areas) => areas,
            None => return refused,
        };
        if any_area_meets(areas, range) {
            return refused;
        }
        if range.start == range.end {
            return MmapReply { ret: 0, map: None };
        }
        let flags = access_flags(prot % 2 == 1, (prot / 2) % 2 == 1, (prot / 4) % 2 == 1);
        MmapReply { ret: 0, map: Some(FreshPages { range, flags }) }
    }

    /// Unmaps `len` bytes at `addr`, where `areas` is what the caller has mapped; there is none
    /// where there is no such process.
    ///
    /// A request that is not granted is answered -1. One that is granted unmaps all pages that its
    /// bytes touch; where these are none, nothing is unmapped.
    ///
    /// The start and the end of a request are cut down to the 39 bits of an address first. So the
    /// pages of a request that reaches beyond them may end before they start, may be none, or may
    /// be fewer than its bytes touch.
    pub fn munmap(&self, areas: Option<&Vec<PageRange>>, addr: usize, len: usize) -> (reply:
        MunmapReply)
        ensures
            (areas is None || !munmap_granted(areas->0@, addr as int, len as int)) ==> {
                &&& reply.ret == -1
                &&& reply.range is None
            },
            reply.ret == 0 || reply.ret == -1,
            reply.ret == 0 && areas is Some ==> pages_all_in_areas(
                areas->0@,
                addr as int % 0x80_0000_0000,
                (addr + len) % 0x80_0000_0000,
            ),
            areas is Some && munmap_granted(areas->0@, addr as int, len as int) ==> ({
                let pages = request_pages(addr as int, len as int);
                &&& reply.ret == 0
                &&& reply.range == if pages.start == pages.end {
                    None
                } else {
                    Some(pages)
                }
            }),
    {
        let refused = MunmapReply { ret: -1, range: None };
        if addr % PAGE_SIZE != 0 {
            return refused;
        }
        let end_addr: usize = match addr.checked_add(len) {
            Some(end_addr) => end_addr,
            None => return refused,
        };
        let range = page_range(addr, end_addr);
        let areas = match areas {
            Some(areas) => areas,
            None => return refused,
        };
        if range.start == range.end {
            assert forall|vpn: int|
                addr as int % 0x80_0000_0000 <= vpn * 4096 < end_addr as int
                    % 0x80_0000_0000 implies #[trigger] in_area(areas@, vpn) by {
                assert(range.holds(vpn));
            }
            return MunmapReply { ret: 0, range: None };
        }
        if !all_pages_held(areas, range) {
            return refused;
        }
        proof {
            let start = addr as int % 0x80_0000_0000;
            let end = end_addr as int % 0x80_0000_0000;
            assert forall|vpn: int| start <= vpn * 4096 < end implies #[trigger] in_area(
                areas@,
                vpn,
            ) by {
                assert(range.holds(vpn));
            }
        }
        MunmapReply { ret: 0, range: Some(range) }
    }
}

/// What has been mapped is taken: once a request's pages are among the areas, no request that has a
/// page in common with it is granted.
pub proof fn law_mapped_memory_is_taken(
    areas: Seq<PageRange>,
    addr: int,
    len: int,
    prot: int,
    addr2: int,
    len2: int,
    prot2: int,
    vpn: int,
)
    requires
        mmap_granted(areas, addr, len, prot),
        request_pages(addr, len).holds(vpn),
        request_pages(addr2, len2).holds(vpn),
    ensures
        !mmap_granted(areas.push(request_pages(addr, len)), addr2, len2, prot2),
{
    let after = areas.push(request_pages(addr, len));
    assert(after[areas.len() as int].meets(request_pages(addr2, len2)));
}

/// What has been mapped can be unmapped: once a request's pages are among the areas, the same
/// bytes can be unmapped.
pub proof fn law_mapped_memory_can_be_unmapped(
    areas: Seq<PageRange>,
    addr: int,
    len: int,
    prot: int,
)
    requires
        mmap_granted(areas, addr, len, prot),
    ensures
        munmap_granted(areas.push(request_pages(addr, len)), addr, len),
{
    let pages = request_pages(addr, len);
    let after = areas.push(pages);
    assert forall|vpn: int| pages.holds(vpn) implies #[trigger] in_area(after, vpn) by {
        assert(after[areas.len() as int].holds(vpn));
    }
}

/// What has been unmapped is free: once no area holds a page of the request, the same bytes can be
/// mapped again, and cannot be unmapped again.
pub proof fn law_unmapped_memory_is_free(
    areas: Seq<PageRange>,
    after: Seq<PageRange>,
    addr: int,
    len: int,
    prot: int,
)
    requires
        munmap_granted(areas, addr, len),
        request_pages(addr, len).start < request_pages(addr, len).end,
        forall|vpn: int| request_pages(addr, len).holds(vpn) ==> !(#[trigger] in_area(after, vpn)),
        forall|i: int| 0 <= i < after.len() ==> (#[trigger] after[i]).start < after[i].end,
        1 <= prot <= 7,
    ensures
        mmap_granted(after, addr, len, prot),
        !munmap_granted(after, addr, len),
{
    let pages = request_pages(addr, len);
    if meets_area(after, pages) {
        let i = choose|i: int| 0 <= i < after.len() && (#[trigger] after[i]).meets(pages);
        let vpn: int = if after[i].start <= pages.start {
            pages.start as int
        } else {
            after[i].start as int
        };
        assert(after[i].holds(vpn));
        assert(in_area(after, vpn));
        assert(pages.holds(vpn));
    }
    assert(pages.holds(pages.start as int));
    assert(!in_area(after, pages.start as int));
}

/// Areas that do not run into each other still do not once a granted request is among them.
pub proof fn law_areas_stay_apart(areas: Seq<PageRange>, addr: int, len: int, prot: int)
    requires
        forall|i: int, j: int|
            0 <= i < j < areas.len() ==> !(#[trigger] areas[i]).meets(#[trigger] areas[j]),
        mmap_granted(areas, addr, len, prot),
    ensures
        ({
            let after = areas.push(request_pages(addr, len));
            forall|i: int, j: int|
                0 <= i < j < after.len() ==> !(#[trigger] after[i]).meets(#[trigger] after[j])
        }),
{
    let pages = request_pages(addr, len);
    let after = areas.push(pages);
    assert forall|i: int, j: int| 0 <= i < j < after.len() implies !(#[trigger] after[i]).meets(
        #[trigger] after[j],
    ) by {
        if j == areas.len() {
            assert(after[i] == areas[i]);
            assert(!areas[i].meets(pages));
        } else {
            assert(after[i] == areas[i] && after[j] == areas[j]);
        }
    }
}

/// A request's pages are those that its bytes lie on: each byte is on one of them, and each of
/// them starts with a byte of the request.
///
/// This holds below the end of the Sv39 addresses, where no address is cut down.
pub proof fn law_request_is_covered(addr: int, len: int, byte: int, vpn: int)
    requires
        0 <= addr,
        addr % PAGE_SIZE as int == 0,
        addr + len < sv39::V_ADDR_COUNT,
    ensures
        addr <= byte < addr + len ==> request_pages(addr, len).holds(sv39::floor_page(byte)),
        0 <= len && request_pages(addr, len).holds(vpn) ==> addr <= vpn * PAGE_SIZE < addr + len,
{
}

/// The access that a program asked for is the access that calls have on its behalf: bytes of input
/// and traced writes reach its memory exactly where it may write it, output and traced reads
/// exactly where it may read it.
pub proof fn law_calls_respect_access(prot: int)
    requires
        1 <= prot <= 7,
    ensures
        ({
            let have = prot_bits(prot) + flags::OWNED;
            &&& flags::covers(have, syscall::user_readable().bits as int) == (prot % 2 == 1)
            &&& flags::covers(have, syscall::readable().bits as int) == (prot % 2 == 1)
            &&& flags::covers(have, syscall::user_writable().bits as int) == ((prot / 2) % 2 == 1)
            &&& flags::covers(have, syscall::writable().bits as int) == ((prot / 2) % 2 == 1)
        }),
{
    assert(prot == 1 || prot == 2 || prot == 3 || prot == 4 || prot == 5 || prot == 6 || prot == 7);
}

/// Memory that is granted is fresh: the request starts on a page boundary, its access is known, no
/// mapped page is among its pages, every byte of it is on one of them, and the pages are open to the
/// program with just the access asked for.
pub proof fn law_granted_memory_is_as_asked_for(
    ctx: SyscallContext,
    areas: &Vec<PageRange>,
    addr: usize,
    len: usize,
    prot: i32,
    reply: MmapReply,
    i: int,
    vpn: int,
    byte: int,
)
    requires
        call_ensures(SyscallContext::mmap, (&ctx, Some(areas), addr, len, prot), reply),
        reply.ret == 0,
    ensures
        addr % 4096 == 0,
        prot == 1 || prot == 2 || prot == 3 || prot == 4 || prot == 5 || prot == 6 || prot == 7,
        addr + len <= usize::MAX,
        0 <= i < areas@.len() ==> {
            ||| areas@[i].end * 4096 <= addr as int % 0x80_0000_0000
            ||| (addr + len) % 0x80_0000_0000 <= areas@[i].start * 4096
        },
        reply.map matches Some(fresh) ==> {
            &&& fresh.range.start * 4096 == addr as int % 0x80_0000_0000
            &&& (addr + len) % 0x80_0000_0000 <= fresh.range.end * 4096 < (addr + len)
                % 0x80_0000_0000 + 4096
            &&& fresh.range.start <= vpn < fresh.range.end && 0 <= i < areas@.len() ==> !(
            areas@[i].start <= vpn < areas@[i].end)
            &&& fresh.flags.bits == 17 + 2 * (prot as int % 2) + 4 * ((prot as int / 2) % 2) + 8 * ((
            prot as int / 4) % 2)
            &&& addr + len < 0x80_0000_0000 && addr <= byte < addr + len ==> fresh.range.start * 4096
                <= byte < fresh.range.end * 4096
        },
        reply.map is None && addr + len < 0x80_0000_0000 ==> len == 0,
{
    let pages = request_pages(addr as int, len as int);
    if 0 <= i < areas@.len() {
        assert(!areas@[i].meets(pages));
    }
}

/// A request is refused for a cause only: one that starts on a page boundary, asks for a known access,
/// stays in the address range and has no page in common with what is mapped is granted, and mapped
/// unless it is for no page.
pub proof fn law_free_memory_is_granted(
    ctx: SyscallContext,
    areas: &Vec<PageRange>,
    addr: usize,
    len: usize,
    prot: i32,
    reply: MmapReply,
)
    requires
        call_ensures(SyscallContext::mmap, (&ctx, Some(areas), addr, len, prot), reply),
        addr % 4096 == 0,
        1 <= prot <= 7,
        addr + len <= usize::MAX,
        forall|i: int|
            0 <= i < areas@.len() ==> {
                ||| (#[trigger] areas@[i]).end * 4096 <= addr as int % 0x80_0000_0000
                ||| (addr + len) % 0x80_0000_0000 <= areas@[i].start * 4096
            },
    ensures
        reply.ret == 0,
        reply.map is Some <==> ((addr + len) % 0x80_0000_0000 + 4095) / 4096 != (addr as int
            % 0x80_0000_0000) / 4096,
{
    let pages = request_pages(addr as int, len as int);
    if meets_area(areas@, pages) {
        let i = choose|i: int| 0 <= i < areas@.len() && (#[trigger] areas@[i]).meets(pages);
        assert(areas@[i].start < pages.end && pages.start < areas@[i].end);
    }
}

/// A refusal is answered -1 and changes nothing, and so is a call of a process that there is not.
pub proof fn law_refused_requests_change_nothing(
    ctx: SyscallContext,
    areas: Option<&Vec<PageRange>>,
    addr: usize,
    len: usize,
    prot: i32,
    mapped: MmapReply,
    unmapped: MunmapReply,
)
    requires
        call_ensures(SyscallContext::mmap, (&ctx, areas, addr, len, prot), mapped),
        call_ensures(SyscallContext::munmap, (&ctx, areas, addr, len), unmapped),
    ensures
        mapped.ret == 0 || mapped.ret == -1 && mapped.map is None,
        unmapped.ret == 0 || unmapped.ret == -1 && unmapped.range is None,
        areas is None ==> mapped.ret == -1 && unmapped.ret == -1,
        addr % 4096 != 0 || addr + len > usize::MAX ==> mapped.ret == -1 && unmapped.ret == -1,
        prot < 1 || 7 < prot ==> mapped.ret == -1,
{
}

/// Memory is unmapped only where all of it is mapped: where a call succeeds, each page of the request
/// is in some area; where a page of it is in none, the call is answered -1 and unmaps nothing.
pub proof fn law_unmapping_takes_mapped_pages_only(
    ctx: SyscallContext,
    areas: &Vec<PageRange>,
    addr: usize,
    len: usize,
    reply: MunmapReply,
    vpn: int,
)
    requires
        call_ensures(SyscallContext::munmap, (&ctx, Some(areas), addr, len), reply),
        addr as int % 0x80_0000_0000 <= vpn * 4096 < (addr + len) % 0x80_0000_0000,
    ensures
        reply.ret == 0 ==> exists|i: int|
            0 <= i < areas@.len() && (#[trigger] areas@[i]).start <= vpn < areas@[i].end,
        (forall|i: int|
            0 <= i < areas@.len() ==> !((#[trigger] areas@[i]).start <= vpn < areas@[i].end))
            ==> reply.ret == -1 && reply.range is None,
{
    let pages = request_pages(addr as int, len as int);
    assert(pages.holds(vpn));
    if munmap_granted(areas@, addr as int, len as int) {
        assert(in_area(areas@, vpn));
        let i = choose|i: int| 0 <= i < areas@.len() && (#[trigger] areas@[i]).holds(vpn);
        assert(areas@[i].start <= vpn < areas@[i].end);
    }
}

/// Mapped memory can be unmapped: a request that starts on a page boundary, stays in the address range
/// and has all its pages in areas is granted, and takes the pages of its bytes.
pub proof fn law_mapped_pages_are_unmapped(
    ctx: SyscallContext,
    areas: &Vec<PageRange>,
    addr: usize,
    len: usize,
    reply: MunmapReply,
)
    requires
        call_ensures(SyscallContext::munmap, (&ctx, Some(areas), addr, len), reply),
        addr % 4096 == 0,
        addr + len <= usize::MAX,
        forall|vpn: int|
            addr as int % 0x80_0000_0000 <= vpn * 4096 < (addr + len) % 0x80_0000_0000
                ==> #[trigger] in_area(areas@, vpn),
    ensures
        reply.ret == 0,
        reply.range matches Some(range) ==> {
            &&& range.start * 4096 == addr as int % 0x80_0000_0000
            &&& (addr + len) % 0x80_0000_0000 <= range.end * 4096 < (addr + len) % 0x80_0000_0000
                + 4096
        },
        reply.range is None <==> ((addr + len) % 0x80_0000_0000 + 4095) / 4096 == (addr as int
            % 0x80_0000_0000) / 4096,
{
    let pages = request_pages(addr as int, len as int);
    assert forall|vpn: int| pages.holds(vpn) implies #[trigger] in_area(areas@, vpn) by {
        assert(addr as int % 0x80_0000_0000 <= vpn * 4096 < (addr + len) % 0x80_0000_0000);
    }
}

/// A page is in the areas exactly where it is from the first page of one of them on and below its
/// end; and a range of pages runs into areas of pages exactly where one of its pages is in them.
pub proof fn law_areas_are_their_pages(areas: Seq<PageRange>, range: PageRange, page: int)
    requires
        range.start < range.end,
        forall|i: int| 0 <= i < areas.len() ==> (#[trigger] areas[i]).start < areas[i].end,
    ensures
        in_area(areas, page) <==> exists|i: int|
            0 <= i < areas.len() && (#[trigger] areas[i]).start <= page < areas[i].end,
        meets_area(areas, range) <==> exists|vpn: int|
            range.start <= vpn < range.end && #[trigger] in_area(areas, vpn),
{
    if in_area(areas, page) {
        let i = choose|i: int| 0 <= i < areas.len() && (#[trigger] areas[i]).holds(page);
        assert(areas[i].start <= page < areas[i].end);
    }
    if exists|i: int| 0 <= i < areas.len() && (#[trigger] areas[i]).start <= page < areas[i].end {
        let i = choose|i: int|
            0 <= i < areas.len() && (#[trigger] areas[i]).start <= page < areas[i].end;
        assert(areas[i].holds(page));
    }
    if meets_area(areas, range) {
        let i = choose|i: int| 0 <= i < areas.len() && (#[trigger] areas[i]).meets(range);
        let vpn: int = if areas[i].start <= range.start {
            range.start as int
        } else {
            areas[i].start as int
        };
        assert(areas[i].holds(vpn));
        assert(in_area(areas, vpn));
    }
    if exists|vpn: int| range.start <= vpn < range.end && #[trigger] in_area(areas, vpn) {
        let vpn = choose|vpn: int|
            range.start <= vpn < range.end && #[trigger] in_area(areas, vpn);
        let i = choose|i: int| 0 <= i < areas.len() && (#[trigger] areas[i]).holds(vpn);
        assert(areas[i].meets(range));
    }
}

} // verus!
