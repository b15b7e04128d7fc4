//! What address spaces have in common.

use ch4_kernel::isolation::SHARED_BOTTOM;
use ch4_kernel::loader::{user_stack, Segment, USER_STACK_BOTTOM};
use ch4_kernel::space::{
    kernel_space, portal_index, schedule_stack, KernelLayout, KernelRegion, RegionTitle, MEMORY,
};
use ch4_kernel::sv39::{vpn_index_in, PageRange, MAX_LEVEL};
use ch4_kernel::syscall::SyscallContext;

fn shared_pages(range: PageRange) -> usize {
    (range.start..range.end).filter(|vpn| vpn_index_in(*vpn, MAX_LEVEL) == portal_index()).count()
}

#[test]
fn only_the_portal_is_shared() {
    let text = KernelRegion { title: RegionTitle::Text, start: 0x8020_0000, end: 0x8021_0000 };
    let layout = KernelLayout { regions: vec![text], start: 0x8020_0000, end: 0x8021_0000 };
    let mappings = kernel_space(&layout, MEMORY, 0x8030_0000);
    let shared: Vec<usize> = mappings.iter().map(|m| shared_pages(m.range)).collect();
    assert_eq!(shared, vec![0, 0, 0, 0, 0, 1]);
    assert_eq!(mappings[5].flags.bits & 16, 0);
    assert_eq!(shared_pages(schedule_stack(0x8031_0000).range), 0);
}

#[test]
fn requested_memory_is_private_below_the_shared_entry() {
    let none: Vec<PageRange> = Vec::new();
    let bottom = SHARED_BOTTOM as usize;
    let pages = |addr: usize, len: usize| {
        SyscallContext.mmap(Some(&none), addr, len, 3).map.unwrap().range
    };
    assert_eq!(shared_pages(pages(bottom - 0x3000, 0x3000)), 0);
    assert_eq!(shared_pages(pages(bottom - 0x3000, 0x3001)), 1);
    assert_eq!(shared_pages(pages(0xffff_ffff_c000_0000, 0x1000)), 1);
}

#[test]
fn programs_are_private() {
    let segment = Segment {
        offset: 0,
        file_size: 0,
        vaddr: USER_STACK_BOTTOM - 0x5000,
        mem_size: 0x5000,
        read: true,
        write: true,
        execute: true,
    };
    assert_eq!(shared_pages(segment.plan(0).unwrap().range), 0);
    assert_eq!(shared_pages(user_stack(0x8031_0000).range), 0);
}
