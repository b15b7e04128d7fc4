//! The kernel's address space: which pages are mapped to what, and with which attributes.
//!
//! Kernel, heap and devices are reached at the address of their physical page. The portal page,
//! through which control passes from one address space to another, is the highest page of every
//! address space.

use crate::context::SCHEDULE_STACK_TOP;
use crate::flags::{build_flags, VmFlags, EXECUTE, GLOBAL, READ, VALID, WRITE};
use crate::sv39::{
    self, page_range, vaddr_floor, vpn_base, vpn_index_in, PageRange, MAX_LEVEL, PAGE_SIZE, VPN_COUNT,
    VPN_MAX,
};
use crate::{flags, gpu, input, plic, syscall, uart};
use vstd::prelude::*;
use vstd::string::StringSliceAdditionalSpecFns;

verus! {

/// The size of the memory that the kernel manages, 24 MiB.
pub const MEMORY: usize = 0x180_0000;

/// The portal's page.
pub const PROTAL_TRANSIT: usize = VPN_MAX;

/// The serial port's registers: first address.
pub const UART_MMIO_START: usize = 0x1000_0000;

/// The serial port's registers: end.
pub const UART_MMIO_END: usize = 0x1000_1000;

/// The VirtIO devices' registers: first address.
pub const VIRTIO_MMIO_START: usize = 0x1000_1000;

/// The VirtIO devices' registers: end.
pub const VIRTIO_MMIO_END: usize = 0x1001_0000;

/// The interrupt controller's registers: first address.
pub const PLIC_MMIO_START: usize = 0x0c00_0000;

/// The interrupt controller's registers: end.
pub const PLIC_MMIO_END: usize = 0x0c40_0000;

/// The number of pages of the scheduler's stack.
pub const SCHEDULE_STACK_PAGES: usize = 2;

/// The page behind the scheduler's stack.
pub const SCHEDULE_STACK_END: usize = 0x400_0000;

/// A run of pages mapped to consecutive physical pages.
#[derive(Clone, Copy, PartialEq, Eq, Structural, Debug)]
pub struct Mapping {
    /// The pages.
    pub range: PageRange,
    /// The physical page of the first of them.
    pub ppn: usize,
    /// Their attributes.
    pub flags: VmFlags,
}

/// The parts of the kernel's image.
#[derive(Clone, Copy, PartialEq, Eq, Structural, Debug)]
pub enum RegionTitle {
    /// Code.
    Text,
    /// Constants.
    Rodata,
    /// Variables.
    Data,
    /// What only the start-up needs.
    Boot,
}

/// A part of the kernel's image.
#[derive(Clone, Copy, PartialEq, Eq, Structural, Debug)]
pub struct KernelRegion {
    /// Which part it is.
    pub title: RegionTitle,
    /// Its first address.
    pub start: usize,
    /// Its end.
    pub end: usize,
}

/// Where the kernel's image lies.
pub struct KernelLayout {
    /// Its parts.
    pub regions: Vec<KernelRegion>,
    /// Its first address.
    pub start: usize,
    /// Its end.
    pub end: usize,
}

/// The attributes of a part of the kernel's image: code can be executed and read, constants can
/// be read, and the rest can be read and written.
pub open spec fn region_bits(title: RegionTitle) -> int {
    match title {
        RegionTitle::Text => EXECUTE + READ + VALID,
        RegionTitle::Rodata => READ + VALID,
        RegionTitle::Data => WRITE + READ + VALID,
        RegionTitle::Boot => WRITE + READ + VALID,
    }
}

/// The pages from `start` to `end`, each mapped to the physical page of the same number.
pub open spec fn identity(start: int, end: int, bits: int) -> Mapping {
    Mapping {
        range: sv39::pages_between(start, end),
        ppn: sv39::floor_page(start) as usize,
        flags: VmFlags { bits: bits as usize },
    }
}

/// The mapping of a part of the kernel's image.
pub open spec fn region_mapping(region: KernelRegion) -> Mapping {
    identity(region.start as int, region.end as int, region_bits(region.title))
}

/// The mapping of the portal, which lies in the physical page at `portal`.
pub open spec fn portal_mapping(portal: int) -> Mapping {
    Mapping {
        range: PageRange { start: PROTAL_TRANSIT, end: VPN_COUNT },
        ppn: (portal / PAGE_SIZE as int) as usize,
        flags: VmFlags { bits: (GLOBAL + EXECUTE + WRITE + READ + VALID) as usize },
    }
}

/// Everything that is mapped in the kernel's address space, in order: the parts of the image, the
/// heap behind it up to the end of memory, the three groups of devices, and the portal.
pub open spec fn kernel_mappings(
    layout: KernelLayout,
    memory: int,
    portal: int,
) -> Seq<Mapping> {
    layout.regions@.map_values(|region: KernelRegion| region_mapping(region)) + seq![
        identity(layout.end as int, layout.start + memory, WRITE + READ + VALID),
        identity(UART_MMIO_START as int, UART_MMIO_END as int, WRITE + READ + VALID),
        identity(VIRTIO_MMIO_START as int, VIRTIO_MMIO_END as int, WRITE + READ + VALID),
        identity(PLIC_MMIO_START as int, PLIC_MMIO_END as int, WRITE + READ + VALID),
        portal_mapping(portal),
    ]
}

/// The attributes of code.
fn text_flags() -> (flags: VmFlags)
    ensures
        flags.bits == EXECUTE + READ + VALID,
{
    proof {
        reveal_strlit("X_RV");
        assert("X_RV"@ =~= seq!['X', '_', 'R', 'V']);
        vstd::string::is_ascii_spec_bytes("X_RV");
        let text = "X_RV".spec_bytes();
        assert(text[0] == flags::LETTER_X && text[2] == flags::LETTER_R && text[3]
            == flags::LETTER_V);
    }
    build_flags("X_RV")
}

/// The attributes of constants.
fn rodata_flags() -> (flags: VmFlags)
    ensures
        flags.bits == READ + VALID,
{
    proof {
        reveal_strlit("__RV");
        assert("__RV"@ =~= seq!['_', '_', 'R', 'V']);
        vstd::string::is_ascii_spec_bytes("__RV");
        let text = "__RV".spec_bytes();
        assert(text[2] == flags::LETTER_R && text[3] == flags::LETTER_V);
    }
    build_flags("__RV")
}

/// The attributes of variables, heap, stack and device registers.
fn data_flags() -> (flags: VmFlags)
    ensures
        flags.bits == WRITE + READ + VALID,
{
    proof {
        reveal_strlit("_WRV");
        assert("_WRV"@ =~= seq!['_', 'W', 'R', 'V']);
        vstd::string::is_ascii_spec_bytes("_WRV");
        let text = "_WRV".spec_bytes();
        assert(text[1] == flags::LETTER_W && text[2] == flags::LETTER_R && text[3]
            == flags::LETTER_V);
    }
    build_flags("_WRV")
}

/// The attributes of the portal.
fn portal_flags() -> (flags: VmFlags)
    ensures
        flags.bits == GLOBAL + EXECUTE + WRITE + READ + VALID,
{
    proof {
        reveal_strlit("__G_XWRV");
        assert("__G_XWRV"@ =~= seq!['_', '_', 'G', '_', 'X', 'W', 'R', 'V']);
        vstd::string::is_ascii_spec_bytes("__G_XWRV");
        let text = "__G_XWRV".spec_bytes();
        assert(text[2] == flags::LETTER_G && text[4] == flags::LETTER_X && text[5]
            == flags::LETTER_W && text[6] == flags::LETTER_R && text[7] == flags::LETTER_V);
    }
    build_flags("__G_XWRV")
}

/// The pages from `start` to `end`, each mapped to the physical page of the same number.
fn map_identity(start: usize, end: usize, flags: VmFlags) -> (mapping: Mapping)
    ensures
        mapping == identity(start as int, end as int, flags.bits as int),
{
    Mapping { range: page_range(start, end), ppn: vaddr_floor(start), flags }
}

/// Everything to map in the kernel's address space, in order. `portal` is the address of the
/// portal's physical page.
pub fn kernel_space(layout: &KernelLayout, memory: usize, portal: usize) -> (mappings: Vec<Mapping>)
    requires
        layout.start + memory <= usize::MAX,
    ensures
        mappings@ == kernel_mappings(*layout, memory as int, portal as int),
{
    let mut space: Vec<Mapping> = Vec::new();
    let mut i: usize = 0;
    while i < layout.regions.len()
        invariant
            i <= layout.regions@.len(),
            space@ =~= layout.regions@.take(i as int).map_values(
                |region: KernelRegion| region_mapping(region),
            ),
        decreases layout.regions@.len() - i,
    {
        let region = layout.regions[i];
        let flags = match region.title {
            RegionTitle::Text => text_flags(),
            RegionTitle::Rodata => rodata_flags(),
            RegionTitle::Data | RegionTitle::Boot => data_flags(),
        };
        space.push(map_identity(region.start, region.end, flags));
        i += 1;
    }
    assert(layout.regions@.take(i as int) =~= layout.regions@);
    space.push(map_identity(layout.end, layout.start + memory, data_flags()));
    space.push(map_identity(UART_MMIO_START, UART_MMIO_END, data_flags()));
    space.push(map_identity(VIRTIO_MMIO_START, VIRTIO_MMIO_END, data_flags()));
    space.push(map_identity(PLIC_MMIO_START, PLIC_MMIO_END, data_flags()));
    space.push(
        Mapping {
            range: PageRange { start: PROTAL_TRANSIT, end: PROTAL_TRANSIT + 1 },
            ppn: portal / PAGE_SIZE,
            flags: portal_flags(),
        },
    );
    space
}

/// The memory that the heap starts with: all behind the kernel's image.
pub fn heap_region(layout: &KernelLayout) -> (region: (usize, usize))
    requires
        layout.start <= layout.end <= layout.start + MEMORY,
    ensures
        region.0 == layout.end,
        region.0 + region.1 == layout.start + MEMORY,
        region.0 + region.1 == layout.start + 0x180_0000,
{
    (layout.end, MEMORY - (layout.end - layout.start))
}

/// Whether a portal of `size` bytes leaves room in its page.
pub fn portal_fits(size: usize) -> (fits: bool)
    ensures
        fits == (size < PAGE_SIZE),
        fits == (size < 4096),
{
    size < PAGE_SIZE
}

/// The entry of the root page table that leads to the portal, which every address space shares.
pub fn portal_index() -> (index: usize)
    ensures
        index == sv39::page_index(PROTAL_TRANSIT as int, MAX_LEVEL as int),
        index == 511,
{
    vpn_index_in(PROTAL_TRANSIT, MAX_LEVEL)
}

/// The address at which the portal is reached in every address space.
pub fn portal_address() -> (addr: u64)
    ensures
        addr == sv39::page_base(PROTAL_TRANSIT as int),
        addr == 0xffff_ffff_ffff_f000,
{
    vpn_base(PROTAL_TRANSIT)
}

/// The mapping of the scheduler's stack, which lies in the physical pages at `stack`.
pub fn schedule_stack(stack: usize) -> (mapping: Mapping)
    ensures
        mapping == stack_mapping(stack as int),
        mapping.range.start == 0x3ff_fffe && mapping.range.end == 0x400_0000,
        mapping.ppn == stack as int / 4096,
        mapping.flags.bits == 7,
{
    Mapping {
        range: PageRange {
            start: SCHEDULE_STACK_END - SCHEDULE_STACK_PAGES,
            end: SCHEDULE_STACK_END,
        },
        ppn: stack / PAGE_SIZE,
        flags: data_flags(),
    }
}

/// The mapping of the scheduler's stack.
pub open spec fn stack_mapping(stack: int) -> Mapping {
    Mapping {
        range: PageRange {
            start: (SCHEDULE_STACK_END - SCHEDULE_STACK_PAGES) as usize,
            end: SCHEDULE_STACK_END,
        },
        ppn: (stack / PAGE_SIZE as int) as usize,
        flags: VmFlags { bits: (WRITE + READ + VALID) as usize },
    }
}

/// Two mappings have no page in common.
pub open spec fn apart(a: Mapping, b: Mapping) -> bool {
    a.range.end <= b.range.start || b.range.end <= a.range.start
}

/// The image's parts lie behind the devices, one behind the other on pages of their own, the heap
/// behind them, and memory ends below the scheduler's stack.
pub open spec fn orderly(layout: KernelLayout, memory: int) -> bool {
    &&& forall|i: int|
        #![trigger layout.regions@[i]]
        0 <= i < layout.regions@.len() ==> {
            &&& VIRTIO_MMIO_END <= layout.regions@[i].start
            &&& layout.regions@[i].start <= layout.regions@[i].end <= layout.end
            &&& sv39::ceil_page(layout.regions@[i].end as int) <= sv39::floor_page(
                layout.end as int,
            )
        }
    &&& forall|i: int, j: int|
        #![trigger layout.regions@[i], layout.regions@[j]]
        0 <= i < j < layout.regions@.len() ==> sv39::ceil_page(layout.regions@[i].end as int)
            <= sv39::floor_page(layout.regions@[j].start as int)
    &&& VIRTIO_MMIO_END <= layout.start <= layout.end <= layout.start + memory
    &&& layout.start + memory <= (SCHEDULE_STACK_END - SCHEDULE_STACK_PAGES) * PAGE_SIZE
}

/// In the kernel's address space everything but the portal is reached at the address of its
/// physical page.
pub proof fn law_kernel_is_mapped_at_its_place(
    layout: KernelLayout,
    memory: int,
    portal: int,
    i: int,
)
    requires
        0 <= i < kernel_mappings(layout, memory, portal).len() - 1,
    ensures
        kernel_mappings(layout, memory, portal)[i].ppn == kernel_mappings(
            layout,
            memory,
            portal,
        )[i].range.start,
{
    let mappings = kernel_mappings(layout, memory, portal);
    let n = layout.regions@.len() as int;
    if i < n {
        assert(mappings[i] == region_mapping(layout.regions@[i]));
    }
}

/// Mapping the kernel's address space, and the scheduler's stack after it, never maps a page twice.
pub proof fn law_no_kernel_page_is_mapped_twice(
    layout: KernelLayout,
    memory: int,
    portal: int,
    stack: int,
    i: int,
    j: int,
)
    requires
        orderly(layout, memory),
        0 <= i < j < kernel_mappings(layout, memory, portal).len(),
    ensures
        apart(
            kernel_mappings(layout, memory, portal)[i],
            kernel_mappings(layout, memory, portal)[j],
        ),
        apart(kernel_mappings(layout, memory, portal)[i], stack_mapping(stack)),
        apart(kernel_mappings(layout, memory, portal)[j], stack_mapping(stack)),
{
    let mappings = kernel_mappings(layout, memory, portal);
    let n = layout.regions@.len() as int;
    if i < n {
        assert(mappings[i] == region_mapping(layout.regions@[i]));
    }
    if j < n {
        assert(mappings[j] == region_mapping(layout.regions@[j]));
    }
}

/// Some mapping reaches an address at its place, for reading and writing by the kernel alone.
pub open spec fn reaches(mappings: Seq<Mapping>, addr: int) -> bool {
    exists|i: int| 0 <= i < mappings.len() && reached_by(#[trigger] mappings[i], addr)
}

/// A mapping reaches an address at its place, for reading and writing by the kernel alone.
pub open spec fn reached_by(mapping: Mapping, addr: int) -> bool {
    &&& mapping.range.holds(sv39::floor_page(addr))
    &&& mapping.ppn == mapping.range.start
    &&& mapping.flags.bits == WRITE + READ + VALID
}

/// Every register of the serial port, of the VirtIO devices and of the interrupt controller can be
/// accessed once the kernel's address space is in force.
pub proof fn law_devices_are_mapped(layout: KernelLayout, memory: int, portal: int, addr: int)
    requires
        UART_MMIO_START <= addr < UART_MMIO_END || VIRTIO_MMIO_START <= addr < VIRTIO_MMIO_END
            || PLIC_MMIO_START <= addr < PLIC_MMIO_END,
    ensures
        reaches(kernel_mappings(layout, memory, portal), addr),
{
    let mappings = kernel_mappings(layout, memory, portal);
    let n = layout.regions@.len() as int;
    if addr < PLIC_MMIO_END {
        assert(reached_by(mappings[n + 3], addr));
    } else if addr < UART_MMIO_END {
        assert(reached_by(mappings[n + 1], addr));
    } else {
        assert(reached_by(mappings[n + 2], addr));
    }
}

/// Every device register that the kernel uses is among the mapped ones: those of the serial port,
/// the two by which VirtIO devices are recognised, and the interrupt controller's for the first
/// 256 harts and all its sources.
pub proof fn law_used_registers_are_mapped(
    layout: KernelLayout,
    memory: int,
    portal: int,
    slot: int,
    hart_id: int,
    target: plic::IntrTargetPriority,
    source: int,
)
    requires
        0 <= slot < gpu::VIRTIO_MMIO_COUNT,
        0 <= hart_id < 256,
        0 < source <= plic::LAST_SOURCE,
    ensures
        reaches(kernel_mappings(layout, memory, portal), uart::UART_BASE + uart::REG_RBR_THR),
        reaches(kernel_mappings(layout, memory, portal), uart::UART_BASE + uart::REG_IER),
        reaches(kernel_mappings(layout, memory, portal), uart::UART_BASE + uart::REG_MCR),
        reaches(kernel_mappings(layout, memory, portal), uart::UART_BASE + uart::REG_LSR),
        reaches(kernel_mappings(layout, memory, portal), gpu::slot_addr(slot)),
        reaches(
            kernel_mappings(layout, memory, portal),
            gpu::slot_addr(slot) + gpu::VIRTIO_DEVICE_ID,
        ),
        reaches(kernel_mappings(layout, memory, portal), input::plic().priority_addr(source)),
        reaches(
            kernel_mappings(layout, memory, portal),
            input::plic().enable_addr(hart_id, target, source),
        ),
        reaches(
            kernel_mappings(layout, memory, portal),
            input::plic().threshold_addr(hart_id, target),
        ),
        reaches(
            kernel_mappings(layout, memory, portal),
            input::plic().claim_addr(hart_id, target),
        ),
{
    law_devices_are_mapped(layout, memory, portal, uart::UART_BASE + uart::REG_RBR_THR);
    law_devices_are_mapped(layout, memory, portal, uart::UART_BASE + uart::REG_IER);
    law_devices_are_mapped(layout, memory, portal, uart::UART_BASE + uart::REG_MCR);
    law_devices_are_mapped(layout, memory, portal, uart::UART_BASE + uart::REG_LSR);
    law_devices_are_mapped(layout, memory, portal, gpu::slot_addr(slot));
    law_devices_are_mapped(layout, memory, portal, gpu::slot_addr(slot) + gpu::VIRTIO_DEVICE_ID);
    law_devices_are_mapped(layout, memory, portal, input::plic().priority_addr(source));
    law_devices_are_mapped(
        layout,
        memory,
        portal,
        input::plic().enable_addr(hart_id, target, source),
    );
    law_devices_are_mapped(layout, memory, portal, input::plic().threshold_addr(hart_id, target));
    law_devices_are_mapped(layout, memory, portal, input::plic().claim_addr(hart_id, target));
}

/// All memory that the heap starts with can be accessed once the kernel's address space is in
/// force.
pub proof fn law_heap_is_mapped(layout: KernelLayout, memory: int, portal: int, addr: int)
    requires
        layout.end <= addr < layout.start + memory,
        layout.start + memory < sv39::V_ADDR_COUNT,
    ensures
        reaches(kernel_mappings(layout, memory, portal), addr),
{
    let mappings = kernel_mappings(layout, memory, portal);
    let n = layout.regions@.len() as int;
    assert(reached_by(mappings[n], addr));
}

/// The scheduler's stack pointer starts at the end of the scheduler's stack.
pub proof fn law_stack_pointer_is_at_the_stack_end(stack: int)
    ensures
        SCHEDULE_STACK_TOP == stack_mapping(stack).range.end * PAGE_SIZE,
{
}

/// The kernel's memory is closed to programs: no page of the kernel's address space has the
/// attributes that a byte of input, a traced read or a traced write needs.
pub proof fn law_kernel_memory_is_closed_to_programs(
    layout: KernelLayout,
    memory: int,
    portal: int,
    i: int,
)
    requires
        0 <= i < kernel_mappings(layout, memory, portal).len(),
    ensures
        ({
            let have = kernel_mappings(layout, memory, portal)[i].flags.bits as int;
            &&& !flags::covers(have, syscall::user_readable().bits as int)
            &&& !flags::covers(have, syscall::user_writable().bits as int)
        }),
{
    let mappings = kernel_mappings(layout, memory, portal);
    if i < layout.regions@.len() {
        assert(mappings[i] == region_mapping(layout.regions@[i]));
    }
    assert(flags::has_flag(syscall::user_readable().bits as int, flags::USER as int));
    assert(flags::has_flag(syscall::user_writable().bits as int, flags::USER as int));
}

/// Every byte of the kernel's image is mapped at its place with the access of its part: code can be
/// executed and read, constants can be read, and the rest can be read and written. The pages mapped
/// for a part are those that its bytes are on.
pub proof fn law_the_whole_image_is_mapped(
    layout: &KernelLayout,
    memory: usize,
    portal: usize,
    mappings: Vec<Mapping>,
    k: int,
    addr: int,
)
    requires
        call_ensures(kernel_space, (layout, memory, portal), mappings),
        0 <= k < layout.regions@.len(),
    ensures
        k < mappings@.len(),
        layout.regions@[k].start <= addr < layout.regions@[k].end < 0x80_0000_0000
            ==> mappings@[k].range.start * 4096 <= addr < mappings@[k].range.end * 4096,
        mappings@[k].range.start * 4096 <= layout.regions@[k].start as int % 0x80_0000_0000
            < mappings@[k].range.start * 4096 + 4096,
        layout.regions@[k].end as int % 0x80_0000_0000 <= mappings@[k].range.end * 4096
            < layout.regions@[k].end as int % 0x80_0000_0000 + 4096,
        mappings@[k].ppn == mappings@[k].range.start,
        mappings@[k].flags.bits == match layout.regions@[k].title {
            RegionTitle::Text => 11int,
            RegionTitle::Rodata => 3int,
            RegionTitle::Data => 7int,
            RegionTitle::Boot => 7int,
        },
{
    assert(mappings@[k] == region_mapping(layout.regions@[k]));
}

/// Behind the parts of the image the kernel maps, in order, all memory from the image's end to the end
/// of memory, the registers of the serial port, of the VirtIO devices and of the interrupt controller,
/// each at its place for reading and writing, and the portal in the highest page with every access but
/// a program's; and nothing else.
pub proof fn law_heap_devices_and_portal_are_mapped(
    layout: &KernelLayout,
    memory: usize,
    portal: usize,
    mappings: Vec<Mapping>,
    addr: int,
)
    requires
        layout.start + memory < 0x80_0000_0000,
        call_ensures(kernel_space, (layout, memory, portal), mappings),
    ensures
        ({
            let n = layout.regions@.len() as int;
            let heap = mappings@[n];
            let door = mappings@[n + 4];
            &&& mappings@.len() == n + 5
            &&& layout.end <= addr < layout.start + memory ==> heap.range.start * 4096 <= addr
                < heap.range.end * 4096
            &&& layout.end < 0x80_0000_0000 ==> heap.range.start * 4096 <= layout.end
                < heap.range.start * 4096 + 4096
            &&& heap.range.end * 4096 < layout.start + memory + 4096
            &&& heap.ppn == heap.range.start && heap.flags.bits == 7
            &&& mappings@[n + 1] == (Mapping {
                range: PageRange { start: 0x1_0000, end: 0x1_0001 },
                ppn: 0x1_0000,
                flags: VmFlags { bits: 7 },
            })
            &&& mappings@[n + 2] == (Mapping {
                range: PageRange { start: 0x1_0001, end: 0x1_0010 },
                ppn: 0x1_0001,
                flags: VmFlags { bits: 7 },
            })
            &&& mappings@[n + 3] == (Mapping {
                range: PageRange { start: 0xc000, end: 0xc400 },
                ppn: 0xc000,
                flags: VmFlags { bits: 7 },
            })
            &&& door.range.start == 0x7ff_ffff && door.range.end == 0x800_0000
            &&& door.ppn == portal as int / 4096
            &&& door.flags.bits == 47
        }),
{
    let n = layout.regions@.len() as int;
    let all = kernel_mappings(*layout, memory as int, portal as int);
    assert(all[n + 1] == identity(UART_MMIO_START as int, UART_MMIO_END as int, 7));
    assert(all[n + 2] == identity(VIRTIO_MMIO_START as int, VIRTIO_MMIO_END as int, 7));
    assert(all[n + 3] == identity(PLIC_MMIO_START as int, PLIC_MMIO_END as int, 7));
}

} // verus!
