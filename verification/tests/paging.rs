//! Pages and page ranges, held against the `page_table` crate on the same scheme.

use ch4_kernel::flags::{VmFlags, OWNED};
use ch4_kernel::sv39::{
    page_range, vaddr_ceil, vaddr_floor, vpn_base, vpn_index_in, PageLayout, PageRange, Release, Sv39,
    Sv39Manager, MAX_LEVEL, PAGE_BITS, PAGE_SIZE, VPN_COUNT, VPN_MAX,
};
use tg_kernel_vm::page_table::{MmuMeta, VAddr, VmFlags as PteFlags, VmMeta, PPN, VPN};

#[derive(Clone, Copy, PartialEq, Eq, PartialOrd, Ord, Hash, Debug)]
struct Scheme;

impl MmuMeta for Scheme {
    const P_ADDR_BITS: usize = 56;
    const PAGE_BITS: usize = 12;
    const LEVEL_BITS: &'static [usize] = &[9, 9, 9];
    const PPN_POS: usize = 10;

    fn is_leaf(value: usize) -> bool {
        Sv39::is_leaf(value)
    }
}

const ADDRESSES: [usize; 16] = [
    0,
    1,
    4095,
    4096,
    4097,
    0x1000_0000,
    0x8020_0000,
    0x8020_0001,
    (1 << 38) - 1,
    1 << 38,
    (1 << 39) - 4096,
    (1 << 39) - 1,
    1 << 39,
    (1 << 39) + 4097,
    usize::MAX - 4095,
    usize::MAX,
];

#[test]
fn constants_agree_with_page_table() {
    assert_eq!(PAGE_BITS, Scheme::PAGE_BITS);
    assert_eq!(PAGE_SIZE, 1 << Scheme::PAGE_BITS);
    assert_eq!(MAX_LEVEL, Scheme::MAX_LEVEL);
    assert_eq!(VPN_MAX, VPN::<Scheme>::MAX.val());
    assert_eq!(VPN_COUNT, VPN_MAX + 1);
}

#[test]
fn floor_and_ceil_agree_with_page_table() {
    for addr in ADDRESSES {
        assert_eq!(vaddr_floor(addr), VAddr::<Scheme>::new(addr).floor().val());
        assert_eq!(vaddr_ceil(addr), VAddr::<Scheme>::new(addr).ceil().val());
    }
    assert_eq!(vaddr_floor(0x8020_0fff), 0x80200);
    assert_eq!(vaddr_ceil(0x8020_0001), 0x80201);
    assert_eq!(vaddr_ceil((1 << 39) - 1), VPN_COUNT);
    assert_eq!(vaddr_ceil(1 << 39), 0);
}

#[test]
fn base_and_index_agree_with_page_table() {
    for vpn in [0, 1, 511, 512, 0x3_ffff, 0x4_0000, (1 << 26) - 1, 1 << 26, VPN_MAX, 1 << 27, 1 << 52] {
        assert_eq!(vpn_base(vpn) as usize, VPN::<Scheme>::new(vpn).base().val());
        for level in 0..=MAX_LEVEL {
            assert_eq!(vpn_index_in(vpn, level), VPN::<Scheme>::new(vpn).index_in(level));
        }
    }
    assert_eq!(vpn_base(VPN_MAX), 0xffff_ffff_ffff_f000);
    assert_eq!(vpn_base(2), 0x2000);
    assert_eq!(vpn_index_in(VPN_MAX, MAX_LEVEL), 511);
}

#[test]
fn leaves_agree_with_page_table() {
    for bits in 0..32usize {
        let expected = bits & 0b1110 != 0;
        assert_eq!(Sv39::is_leaf(bits), expected);
        assert_eq!(Scheme::is_huge(bits, 1), expected);
    }
}

#[test]
fn entries_are_read_as_page_table_builds_them() {
    let manager = Sv39Manager { root: 0x8040_3000 };
    for page in [0usize, 1, 0x80403, (1 << 27) - 1] {
        let pte = PteFlags::<Scheme>::VALID.build_pte(PPN::new(page));
        assert!(!manager.check_owned(pte.0 as u64));
        let owned = pte.0 as u64 | OWNED as u64;
        assert!(manager.check_owned(owned));
        assert_eq!(
            manager.deallocate(owned, 3),
            Release {
                pages: 3,
                block: Some((
                    VPN::<Scheme>::new(pte.ppn().val()).base().val() as u64,
                    PageLayout { size: 12288, align: 4096 }
                )),
            }
        );
    }
}

#[test]
fn page_range_of_bytes() {
    assert_eq!(page_range(0x2000, 0x2000), PageRange { start: 2, end: 2 });
    assert_eq!(page_range(0x2000, 0x2001), PageRange { start: 2, end: 3 });
    assert_eq!(page_range(0x2fff, 0x4000), PageRange { start: 2, end: 4 });
    assert_eq!(page_range(0x1000, 1 << 39), PageRange { start: 1, end: 0 });
}

#[test]
fn manager_reaches_pages_at_their_number() {
    let manager = Sv39Manager { root: 0x8040_3000 };
    assert_eq!(manager.root_ppn(), 0x80403);
    assert_eq!(manager.p_to_v(0x80403), 0x8040_3000);
    assert_eq!(manager.v_to_p(0x8040_3abc), 0x80403);
    assert_eq!(manager.v_to_p(manager.p_to_v(VPN_MAX) as usize), VPN_MAX);
    assert_eq!(Sv39Manager::page_layout(2), PageLayout { size: 8192, align: 4096 });
}

#[test]
fn manager_marks_what_it_allocates() {
    let manager = Sv39Manager { root: 0 };
    assert_eq!(manager.allocate(VmFlags { bits: 7 }), VmFlags { bits: 7 + 256 });
    assert_eq!(manager.allocate(VmFlags { bits: 256 }), VmFlags { bits: 256 });
    assert_eq!(manager.deallocate(7, 3), Release { pages: 0, block: None });
}
