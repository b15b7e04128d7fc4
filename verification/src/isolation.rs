//! What address spaces have in common, and what they do not.
//!
//! Every address space has page tables of its own but for one: the entry of the root page table
//! that leads to the portal is the kernel's in all of them. So a program's memory is out of reach
//! of the others as long as none of it is mapped under that entry.

use crate::flags;
use crate::gpu::Framebuffer;
use crate::loader::{self, Segment};
use crate::memory;
use crate::process::{self, HeapChange};
use crate::screen;
use crate::space::{self, KernelLayout, PROTAL_TRANSIT};
use crate::sv39::{self, MAX_LEVEL, PAGE_SIZE, V_ADDR_COUNT};
use vstd::prelude::*;

verus! {

/// The lowest of the Sv39 addresses that the shared entry covers.
pub const SHARED_BOTTOM: u64 = 0x7f_c000_0000;

/// Whether a page is reached through the entry of the root page table that all address spaces
/// share.
pub open spec fn shared(vpn: int) -> bool {
    sv39::page_index(vpn, MAX_LEVEL as int) == sv39::page_index(
        PROTAL_TRANSIT as int,
        MAX_LEVEL as int,
    )
}

/// The shared entry covers the highest addresses, from `SHARED_BOTTOM` on.
pub proof fn law_shared_pages_are_the_highest(vpn: int)
    requires
        0 <= vpn < sv39::VPN_COUNT,
    ensures
        shared(vpn) == (SHARED_BOTTOM <= vpn * PAGE_SIZE),
{
}

/// All that the address spaces share is the portal: of what the kernel maps, the portal's page lies
/// under the shared entry, it is closed to programs, and nothing else lies there.
pub proof fn law_only_the_portal_is_shared(
    layout: KernelLayout,
    memory: int,
    portal: int,
    stack: int,
    i: int,
    vpn: int,
)
    requires
        space::orderly(layout, memory),
        0 <= i < space::kernel_mappings(layout, memory, portal).len(),
    ensures
        ({
            let mapping = space::kernel_mappings(layout, memory, portal)[i];
            mapping.range.holds(vpn) && shared(vpn) ==> {
                &&& mapping == space::portal_mapping(portal)
                &&& vpn == PROTAL_TRANSIT
            }
        }),
        space::stack_mapping(stack).range.holds(vpn) ==> !shared(vpn),
        shared(PROTAL_TRANSIT as int),
        !flags::has_flag(space::portal_mapping(portal).flags.bits as int, flags::USER as int),
{
    let mappings = space::kernel_mappings(layout, memory, portal);
    if i < layout.regions@.len() {
        assert(mappings[i] == space::region_mapping(layout.regions@[i]));
    }
}

/// What a program has mapped for it stays its own, as long as the request's end, cut down to the
/// width of the Sv39 addresses, is not above `SHARED_BOTTOM`.
pub proof fn law_requested_memory_is_private(addr: int, len: int, vpn: int)
    requires
        0 <= addr,
        0 <= len,
        (addr + len) % V_ADDR_COUNT as int <= SHARED_BOTTOM,
        memory::request_pages(addr, len).holds(vpn),
    ensures
        !shared(vpn),
{
}

/// What a program is loaded to, and its stack, is its own.
pub proof fn law_program_is_private(segment: Segment, image_len: int, stack: int, vpn: int)
    requires
        segment.loadable(image_len),
    ensures
        segment.planned().range.holds(vpn) ==> !shared(vpn),
        loader::user_stack_mapping(stack).range.holds(vpn) ==> !shared(vpn),
{
}

/// What a heap grows by is its program's own, as long as the heap's new end, cut down to the width
/// of the Sv39 addresses, is not above `SHARED_BOTTOM`.
pub proof fn law_heap_is_private(old_brk: int, new_brk: int, vpn: int)
    requires
        0 <= old_brk,
        0 <= new_brk,
        new_brk % V_ADDR_COUNT as int <= SHARED_BOTTOM,
    ensures
        process::heap_change(old_brk, new_brk) matches HeapChange::Grow(pages) ==> pages.holds(vpn)
            ==> !shared(vpn),
{
}

/// Where a program finds the framebuffer is in page tables of its own, as long as the framebuffer's
/// end there, cut down to the width of the Sv39 addresses, is not above `SHARED_BOTTOM`.
pub proof fn law_framebuffer_is_mapped_privately(fb: Framebuffer, vpn: int)
    requires
        (screen::FB_VADDR + fb.len) % V_ADDR_COUNT as int <= SHARED_BOTTOM,
        screen::framebuffer_mapping(fb).range.holds(vpn),
    ensures
        !shared(vpn),
{
}

} // verus!
