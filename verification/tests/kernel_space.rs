//! The kernel's address space.

use ch4_kernel::flags::VmFlags;
use ch4_kernel::space::{
    heap_region, kernel_space, portal_address, portal_fits, portal_index, schedule_stack,
    KernelLayout, KernelRegion, Mapping, RegionTitle, MEMORY,
};
use ch4_kernel::sv39::PageRange;

fn layout() -> KernelLayout {
    KernelLayout {
        regions: vec![
            KernelRegion { title: RegionTitle::Text, start: 0x8020_0000, end: 0x8020_5abc },
            KernelRegion { title: RegionTitle::Rodata, start: 0x8020_6000, end: 0x8020_8000 },
            KernelRegion { title: RegionTitle::Data, start: 0x8020_8000, end: 0x8020_9010 },
            KernelRegion { title: RegionTitle::Boot, start: 0x8020_a000, end: 0x8021_0000 },
        ],
        start: 0x8020_0000,
        end: 0x8021_0000,
    }
}

fn mapping(start: usize, end: usize, ppn: usize, bits: usize) -> Mapping {
    Mapping { range: PageRange { start, end }, ppn, flags: VmFlags { bits } }
}

#[test]
fn everything_is_mapped_in_order() {
    assert_eq!(
        kernel_space(&layout(), MEMORY, 0x8030_0000),
        vec![
            mapping(0x80200, 0x80206, 0x80200, 11),
            mapping(0x80206, 0x80208, 0x80206, 3),
            mapping(0x80208, 0x8020a, 0x80208, 7),
            mapping(0x8020a, 0x80210, 0x8020a, 7),
            mapping(0x80210, 0x81a00, 0x80210, 7),
            mapping(0x10000, 0x10001, 0x10000, 7),
            mapping(0x10001, 0x10010, 0x10001, 7),
            mapping(0xc000, 0xc400, 0xc000, 7),
            mapping(0x7ff_ffff, 0x800_0000, 0x80300, 47),
        ]
    );
}

#[test]
fn no_page_is_mapped_twice() {
    let mut mappings = kernel_space(&layout(), MEMORY, 0x8030_0000);
    mappings.push(schedule_stack(0x8031_0000));
    for (n, a) in mappings.iter().enumerate() {
        for b in &mappings[..n] {
            assert!(a.range.end <= b.range.start || b.range.end <= a.range.start);
        }
    }
}

#[test]
fn heap_takes_the_rest_of_memory() {
    assert_eq!(MEMORY, 24 << 20);
    assert_eq!(heap_region(&layout()), (0x8021_0000, MEMORY - 0x1_0000));
}

#[test]
fn portal_and_stack() {
    assert!(portal_fits(4095));
    assert!(!portal_fits(4096));
    assert_eq!(portal_index(), 511);
    assert_eq!(portal_address(), 0xffff_ffff_ffff_f000);
    assert_eq!(schedule_stack(0x8031_0000), mapping((1 << 26) - 2, 1 << 26, 0x80310, 7));
}

#[test]
fn registers_and_heap_are_mapped_for_the_kernel_alone() {
    let mappings = kernel_space(&layout(), MEMORY, 0x8030_0000);
    for addr in [
        0x1000_0000, 0x1000_0005, 0x1000_1000, 0x1000_8008, 0x0c00_0028, 0x0c00_2080, 0x0c20_1004,
        0x8021_0000, 0x819f_ffff,
    ] {
        let vpn = addr / 4096;
        let found = mappings.iter().find(|m| m.range.start <= vpn && vpn < m.range.end).unwrap();
        assert_eq!(found.ppn, found.range.start);
        assert_eq!(found.flags, VmFlags { bits: 7 });
    }
    assert!(mappings.iter().all(|m| m.flags.bits & 16 == 0));
}
