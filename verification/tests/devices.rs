//! Serial port, interrupt controller and graphics.

use ch4_kernel::gpu::{
    find_virtio_gpu_mmio, framebuffer_flush, framebuffer_info, init_graphics, no_framebuffer,
    virtio_slot, Framebuffer, MmioHeader, SimpleHal, DMA_POOL_PAGES,
};
use ch4_kernel::mmio::{Write32, Write8};
use ch4_kernel::plic::{IntrTargetPriority, Plic};
use ch4_kernel::uart::{init, read_nonblocking, reg_ptr, set_rx_interrupt, write_reg, UART_IRQ};

#[test]
fn uart_registers() {
    assert_eq!(reg_ptr(5), 0x1000_0005);
    assert_eq!(write_reg(0, 65), Write8 { addr: 0x1000_0000, value: 65 });
    assert_eq!(init(), Write8 { addr: 0x1000_0004, value: 0b1011 });
    assert_eq!(set_rx_interrupt(true), Write8 { addr: 0x1000_0001, value: 1 });
    assert_eq!(set_rx_interrupt(false), Write8 { addr: 0x1000_0001, value: 0 });
    assert_eq!(UART_IRQ, 10);
}

#[test]
fn uart_read_goes_by_the_line_status() {
    assert_eq!(read_nonblocking(0), None);
    assert_eq!(read_nonblocking(0b0110_0000), None);
    assert_eq!(read_nonblocking(1), Some(0x1000_0000));
    assert_eq!(read_nonblocking(0b0110_0001), Some(0x1000_0000));
}

#[test]
fn plic_addresses() {
    let plic = Plic::new(0x0c00_0000);
    assert_eq!(IntrTargetPriority::supported_number(), 2);
    assert_eq!(Plic::hart_id_with_priority(0, IntrTargetPriority::Machine), 0);
    assert_eq!(Plic::hart_id_with_priority(0, IntrTargetPriority::Supervisor), 1);
    assert_eq!(Plic::hart_id_with_priority(3, IntrTargetPriority::Supervisor), 7);
    assert_eq!(plic.priority_ptr(10), 0x0c00_0028);
    assert_eq!(plic.priority_ptr(132), 0x0c00_0210);
    assert_eq!(plic.enable_ptr(0, IntrTargetPriority::Supervisor, 10), (0x0c00_2080, 10));
    assert_eq!(plic.enable_ptr(1, IntrTargetPriority::Machine, 33), (0x0c00_2104, 1));
    assert_eq!(plic.threshold_ptr(0, IntrTargetPriority::Supervisor), 0x0c20_1000);
    assert_eq!(plic.claim_complete_ptr(0, IntrTargetPriority::Supervisor), 0x0c20_1004);
    assert_eq!(plic.claim(0, IntrTargetPriority::Machine), 0x0c20_0004);
}

#[test]
fn plic_stores() {
    let plic = Plic::new(0x0c00_0000);
    assert_eq!(plic.set_priority(10, 7), Write32 { addr: 0x0c00_0028, value: 7 });
    assert_eq!(
        plic.set_threshold(0, IntrTargetPriority::Machine, 1),
        Write32 { addr: 0x0c20_0000, value: 1 }
    );
    assert_eq!(
        plic.enable(0, IntrTargetPriority::Supervisor, 10, 0x8000_0001),
        Write32 { addr: 0x0c00_2080, value: 0x8000_0401 }
    );
    assert_eq!(
        plic.enable(0, IntrTargetPriority::Supervisor, 31, 0xffff_ffff),
        Write32 { addr: 0x0c00_2080, value: 0xffff_ffff }
    );
    assert_eq!(
        plic.complete(0, IntrTargetPriority::Supervisor, 10),
        Write32 { addr: 0x0c20_1004, value: 10 }
    );
}

#[test]
fn gpu_is_the_first_that_identifies_itself() {
    let none = MmioHeader { magic: 0x7472_6976, device_id: 0 };
    let disk = MmioHeader { magic: 0x7472_6976, device_id: 2 };
    let gpu = MmioHeader { magic: 0x7472_6976, device_id: 16 };
    let fake = MmioHeader { magic: 0, device_id: 16 };
    assert_eq!(find_virtio_gpu_mmio(&vec![none, disk, fake, gpu, gpu]), Some(0x1000_4000));
    assert_eq!(find_virtio_gpu_mmio(&vec![gpu]), Some(0x1000_1000));
    assert_eq!(find_virtio_gpu_mmio(&vec![none; 8]), None);
    assert_eq!(find_virtio_gpu_mmio(&vec![none, none, none, none, none, none, none, gpu]), Some(0x1000_8000));
    assert_eq!(find_virtio_gpu_mmio(&vec![]), None);
    assert_eq!(virtio_slot(7), 0x1000_8000);
}

#[test]
fn dma_pages_follow_on_each_other() {
    let mut hal = SimpleHal::new(0x8100_0000);
    assert_eq!(hal.dma_alloc(0), 0);
    assert_eq!(hal.dma_alloc(2), 0x8100_0000);
    assert_eq!(hal.dma_alloc(1), 0x8100_2000);
    assert_eq!(hal.dma_dealloc(0x8100_2000, 1), 0);
    assert_eq!(hal.dma_alloc(1), 0x8100_3000);
    assert_eq!(hal.dma_alloc(usize::MAX), 0);
    assert_eq!(hal.dma_alloc(DMA_POOL_PAGES), 0);
    assert_eq!(hal.dma_alloc(DMA_POOL_PAGES - 4), 0x8100_4000);
    assert_eq!(hal.dma_alloc(1), 0);
    assert_eq!(SimpleHal::phys_to_virt(0x8100_0123), 0x8100_0123);
    assert_eq!(SimpleHal::virt_to_phys(0x8100_0123), 0x8100_0123);
}

#[test]
fn framebuffer_is_what_the_screen_shows() {
    let fb = init_graphics(0x8100_0000, 4_100_096, 1280, 800);
    assert_eq!(fb, Framebuffer { ptr: 0x8100_0000, len: 4_096_000, width: 1280, height: 800 });
    assert_eq!(framebuffer_info(&fb), Some((0x8100_0000, 4_096_000, 1280, 800)));
    assert_eq!(init_graphics(1, 100, 1280, 800).len, 100);
    assert_eq!(init_graphics(1, 100, u32::MAX, u32::MAX).len, 100);
}

#[test]
fn framebuffer_needs_all_its_parts() {
    assert_eq!(framebuffer_info(&no_framebuffer()), None);
    assert_eq!(framebuffer_info(&init_graphics(0, 100, 2, 2)), None);
    assert_eq!(framebuffer_info(&init_graphics(1, 0, 2, 2)), None);
    assert_eq!(framebuffer_info(&Framebuffer { ptr: 1, len: 1, width: 0, height: 1 }), None);
    assert_eq!(framebuffer_info(&Framebuffer { ptr: 1, len: 1, width: 1, height: 0 }), None);
}

#[test]
fn flush_answers() {
    assert_eq!(framebuffer_flush(Some(true)), 0);
    assert_eq!(framebuffer_flush(Some(false)), -1);
    assert_eq!(framebuffer_flush(None), -1);
}
