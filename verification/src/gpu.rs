//! Graphics: finding the VirtIO GPU, memory for its queues, and the framebuffer's description.

use vstd::prelude::*;

verus! {

/// The address of the first VirtIO device.
pub const VIRTIO_MMIO_BASE: usize = 0x1000_1000;

/// The distance from one VirtIO device to the next.
pub const VIRTIO_MMIO_STRIDE: usize = 0x1000;

/// The number of places for VirtIO devices.
pub const VIRTIO_MMIO_COUNT: usize = 8;

/// The distance from a device's address to its identification register.
pub const VIRTIO_DEVICE_ID: usize = 8;

/// What the first register of a VirtIO device shows.
pub const VIRTIO_MAGIC: u32 = 0x7472_6976;

/// The identification of a GPU.
pub const DEVICE_ID_GPU: u32 = 16;

/// The number of bytes of a page of device memory.
pub const DMA_PAGE_SIZE: usize = 4096;

/// The number of pages of the pool of device memory.
pub const DMA_POOL_PAGES: usize = 2048;

/// The number of bytes of a pixel.
pub const PIXEL_SIZE: usize = 4;

/// The pool from which a VirtIO driver takes memory for its device.
///
/// Pages are handed out in order and never taken back. Device addresses and kernel addresses are
/// the same.
pub struct SimpleHal {
    /// The address of the pool.
    pub base: usize,
    /// The first page that is still free.
    pub next_page: usize,
}

impl SimpleHal {
    /// The pool stands at a usable address, on a page boundary, and what is handed out lies inside
    /// it.
    pub open spec fn wf(self) -> bool {
        &&& 0 < self.base
        &&& self.base as int % DMA_PAGE_SIZE as int == 0
        &&& self.base + DMA_POOL_PAGES * DMA_PAGE_SIZE <= usize::MAX
        &&& self.next_page <= DMA_POOL_PAGES
    }

    /// Whether a request for pages is met.
    pub open spec fn grants(self, pages: int) -> bool {
        0 < pages && self.next_page + pages <= DMA_POOL_PAGES
    }

    /// The address that a request gets, 0 where it is not met.
    pub open spec fn granted(self, pages: int) -> int {
        if self.grants(pages) {
            self.base + self.next_page * DMA_PAGE_SIZE
        } else {
            0
        }
    }

    /// The pool after a request.
    pub open spec fn after(self, pages: int) -> SimpleHal {
        if self.grants(pages) {
            SimpleHal { base: self.base, next_page: (self.next_page + pages) as usize }
        } else {
            self
        }
    }

    /// A pool of which nothing has been handed out.
    pub fn new(base: usize) -> (hal: SimpleHal)
        requires
            0 < base,
            base as int % DMA_PAGE_SIZE as int == 0,
            base + DMA_POOL_PAGES * DMA_PAGE_SIZE <= usize::MAX,
        ensures
            hal.wf(),
            hal.base == base,
            hal.next_page == 0,
    {
        SimpleHal { base, next_page: 0 }
    }

    /// Takes contiguous pages, and gives their address; 0 where none are asked for or too few are
    /// left, and then the pool stays as it is.
    pub fn dma_alloc(&mut self, pages: usize) -> (paddr: usize)
        requires
            old(self).wf(),
        ensures
            final(self).wf(),
            paddr == old(self).granted(pages as int),
            *final(self) == old(self).after(pages as int),
            paddr != 0 <==> 0 < pages && old(self).next_page + pages <= 2048,
            paddr != 0 ==> {
                &&& paddr == old(self).base + old(self).next_page * 4096
                &&& final(self).next_page == old(self).next_page + pages
                &&& final(self).base == old(self).base
            },
            paddr == 0 ==> *final(self) == *old(self),
    {
        if pages == 0 {
            return 0;
        }
        let current: usize = self.next_page;
        let next: usize = match current.checked_add(pages) {
            Some(v) => v,
            None => return 0,
        };
        if next > DMA_POOL_PAGES {
            return 0;
        }
        self.next_page = next;
        self.base + current * DMA_PAGE_SIZE
    }

    /// Gives pages back, which always succeeds and changes nothing.
    pub fn dma_dealloc(&self, _paddr: usize, _pages: usize) -> (status: i32)
        ensures
            status == 0,
    {
        0
    }

    /// The kernel's address of device memory.
    pub fn phys_to_virt(paddr: usize) -> (vaddr: usize)
        ensures
            vaddr == paddr,
    {
        paddr
    }

    /// The device's address of kernel memory.
    pub fn virt_to_phys(vaddr: usize) -> (paddr: usize)
        ensures
            paddr == vaddr,
    {
        vaddr
    }
}

/// The pool after the first `count` of a series of requests.
pub open spec fn pool_after(hal: SimpleHal, requests: Seq<int>, count: int) -> SimpleHal
    decreases count,
{
    if count <= 0 {
        hal
    } else {
        pool_after(hal, requests, count - 1).after(requests[count - 1])
    }
}

/// The address that a request gets within a series of requests.
pub open spec fn grant_in_series(hal: SimpleHal, requests: Seq<int>, i: int) -> int {
    pool_after(hal, requests, i).granted(requests[i])
}

/// Handing out pages only ever moves the pool forward.
proof fn lemma_pool_advances(hal: SimpleHal, requests: Seq<int>, i: int, j: int)
    requires
        hal.wf(),
        0 <= i <= j <= requests.len(),
    ensures
        pool_after(hal, requests, j).wf(),
        pool_after(hal, requests, j).base == hal.base,
        pool_after(hal, requests, i).next_page <= pool_after(hal, requests, j).next_page,
    decreases j,
{
    if j > 0 {
        if i == j {
            lemma_pool_advances(hal, requests, i - 1, j - 1);
        } else {
            lemma_pool_advances(hal, requests, i, j - 1);
        }
    }
}

/// However a driver asks, the blocks that it gets lie in the pool, start on page boundaries and come
/// one behind the other, so no two of them share a byte.
pub proof fn law_dma_blocks_are_disjoint(hal: SimpleHal, requests: Seq<int>, i: int, j: int)
    requires
        hal.wf(),
        0 <= i < j < requests.len(),
        grant_in_series(hal, requests, i) != 0,
        grant_in_series(hal, requests, j) != 0,
    ensures
        hal.base <= grant_in_series(hal, requests, i),
        grant_in_series(hal, requests, i) % DMA_PAGE_SIZE as int == 0,
        grant_in_series(hal, requests, j) % DMA_PAGE_SIZE as int == 0,
        grant_in_series(hal, requests, i) < grant_in_series(hal, requests, j),
        grant_in_series(hal, requests, i) + requests[i] * DMA_PAGE_SIZE <= grant_in_series(
            hal,
            requests,
            j,
        ),
        grant_in_series(hal, requests, j) + requests[j] * DMA_PAGE_SIZE <= hal.base + DMA_POOL_PAGES
            * DMA_PAGE_SIZE,
{
    lemma_pool_advances(hal, requests, 0, i);
    lemma_pool_advances(hal, requests, i + 1, j);
}

/// What a place for a VirtIO device shows.
#[derive(Clone, Copy, PartialEq, Eq, Structural, Debug)]
pub struct MmioHeader {
    /// The first register.
    pub magic: u32,
    /// The identification register.
    pub device_id: u32,
}

impl MmioHeader {
    /// Whether a GPU is there.
    pub open spec fn is_gpu(self) -> bool {
        self.magic == VIRTIO_MAGIC && self.device_id == DEVICE_ID_GPU
    }
}

/// None of the first `n` places has a GPU.
pub open spec fn no_gpu_among(headers: Seq<MmioHeader>, n: int) -> bool {
    forall|slot: int|
        0 <= slot < n ==> (#[trigger] headers[slot]).magic != 0x7472_6976 || headers[slot].device_id
            != 16
}

/// The address of a place for a VirtIO device.
pub open spec fn slot_addr(slot: int) -> int {
    VIRTIO_MMIO_BASE + slot * VIRTIO_MMIO_STRIDE
}

/// The address of a place for a VirtIO device.
pub fn virtio_slot(slot: usize) -> (addr: usize)
    requires
        slot < VIRTIO_MMIO_COUNT,
    ensures
        addr == slot_addr(slot as int),
        addr == 0x1000_1000 + slot * 0x1000,
{
    VIRTIO_MMIO_BASE + slot * VIRTIO_MMIO_STRIDE
}

/// The address of the first GPU among the VirtIO devices, `headers` being what their places show,
/// in order.
pub fn find_virtio_gpu_mmio(headers: &Vec<MmioHeader>) -> (found: Option<usize>)
    requires
        headers@.len() <= VIRTIO_MMIO_COUNT,
    ensures
        match found {
            Some(addr) => exists|slot: int|
                0 <= slot < headers@.len() && #[trigger] headers@[slot].is_gpu() && addr == slot_addr(
                    slot,
                ) && forall|earlier: int|
                    0 <= earlier < slot ==> !(#[trigger] headers@[earlier]).is_gpu(),
            None => forall|slot: int|
                0 <= slot < headers@.len() ==> !(#[trigger] headers@[slot]).is_gpu(),
        },
        found is None ==> no_gpu_among(headers@, headers@.len() as int),
{
    let mut slot: usize = 0;
    while slot < headers.len()
        invariant
            slot <= headers@.len() <= VIRTIO_MMIO_COUNT,
            forall|earlier: int| 0 <= earlier < slot ==> !(#[trigger] headers@[earlier]).is_gpu(),
        decreases headers@.len() - slot,
    {
        let base = virtio_slot(slot);
        if headers[slot].magic == VIRTIO_MAGIC && headers[slot].device_id == DEVICE_ID_GPU {
            assert(headers@[slot as int].is_gpu());
            return Some(base);
        }
        slot += 1;
    }
    None
}

/// The framebuffer that the kernel draws to; all zero where there is none.
#[derive(Clone, Copy, PartialEq, Eq, Structural, Debug)]
pub struct Framebuffer {
    /// Its address.
    pub ptr: usize,
    /// Its usable length in bytes.
    pub len: usize,
    /// Its width in pixels.
    pub width: usize,
    /// Its height in pixels.
    pub height: usize,
}

impl Framebuffer {
    /// Whether there is something to draw to.
    pub open spec fn usable(self) -> bool {
        self.ptr != 0 && self.len != 0 && self.width != 0 && self.height != 0
    }
}

/// The smaller of two numbers.
pub open spec fn smaller(a: int, b: int) -> int {
    if a <= b {
        a
    } else {
        b
    }
}

/// A product, or the largest machine number where it does not fit.
fn product(a: usize, b: usize) -> (c: usize)
    ensures
        c == smaller(a * b, usize::MAX as int),
{
    match a.checked_mul(b) {
        Some(c) => c,
        None => usize::MAX,
    }
}

/// How much of a buffer of `buffer_len` bytes the screen shows: no more than its pixels take.
pub open spec fn visible_len(buffer_len: int, width: int, height: int) -> int {
    smaller(buffer_len, width * height * PIXEL_SIZE)
}

/// The framebuffer before any is set up.
pub fn no_framebuffer() -> (fb: Framebuffer)
    ensures
        !fb.usable(),
        fb == (Framebuffer { ptr: 0, len: 0, width: 0, height: 0 }),
{
    Framebuffer { ptr: 0, len: 0, width: 0, height: 0 }
}

/// The framebuffer that a GPU of `width` by `height` pixels offers in a buffer of `buffer_len`
/// bytes at `ptr`. Its first `len` bytes are the ones to clear.
pub fn init_graphics(ptr: usize, buffer_len: usize, width: u32, height: u32) -> (fb: Framebuffer)
    ensures
        fb.ptr == ptr,
        fb.len == visible_len(buffer_len as int, width as int, height as int),
        fb.width == width,
        fb.height == height,
{
    let width: usize = width as usize;
    let height: usize = height as usize;
    let visible = product(product(width, height), PIXEL_SIZE);
    let len: usize = if buffer_len <= visible {
        buffer_len
    } else {
        visible
    };
    Framebuffer { ptr, len, width, height }
}

/// The framebuffer's address, length, width and height, where there is something to draw to.
pub fn framebuffer_info(fb: &Framebuffer) -> (info: Option<(usize, usize, usize, usize)>)
    ensures
        info == if fb.usable() {
            Some((fb.ptr, fb.len, fb.width, fb.height))
        } else {
            None
        },
{
    if fb.ptr == 0 || fb.len == 0 || fb.width == 0 || fb.height == 0 {
        None
    } else {
        Some((fb.ptr, fb.len, fb.width, fb.height))
    }
}

/// The answer to a request to show the framebuffer: 0 where there is a GPU and it did so, else -1.
/// `flushed` says whether the GPU did, where there is one.
pub fn framebuffer_flush(flushed: Option<bool>) -> (status: isize)
    ensures
        status == if flushed == Some(true) {
            0int
        } else {
            -1int
        },
{
    match flushed {
        Some(true) => 0,
        _ => -1,
    }
}

/// The number of pages that the first `count` of a series of requests ask for.
pub open spec fn pages_asked(requests: Seq<int>, count: int) -> int
    decreases count,
{
    if count <= 0 {
        0
    } else {
        pages_asked(requests, count - 1) + requests[count - 1]
    }
}

/// No page of the pool is wasted: requests for some pages each are all met, one block right behind
/// the other, as long as the pool's 2048 pages suffice for all of them.
pub proof fn law_pool_serves_until_it_is_used_up(hal: SimpleHal, requests: Seq<int>, i: int)
    requires
        hal.wf(),
        hal.next_page == 0,
        0 <= i < requests.len(),
        forall|j: int| 0 <= j < requests.len() ==> 0 < #[trigger] requests[j],
    ensures
        pages_asked(requests, i + 1) <= 2048 ==> grant_in_series(hal, requests, i) == hal.base
            + pages_asked(requests, i) * 4096,
        pages_asked(requests, i + 1) <= 2048 ==> pool_after(hal, requests, i + 1).next_page
            == pages_asked(requests, i + 1),
    decreases i,
{
    assert(0 < requests[i]);
    if i > 0 {
        law_pool_serves_until_it_is_used_up(hal, requests, i - 1);
        lemma_pool_advances(hal, requests, 0, i);
    }
    assert(pages_asked(requests, i + 1) == pages_asked(requests, i) + requests[i]);
    assert(pages_asked(requests, 0) == 0);
    assert(pool_after(hal, requests, 0) == hal);
}

/// The GPU that is found is the first one: the device of that kind in the lowest of the places, which
/// lie 4096 bytes apart; and none is found only where there is none.
pub proof fn law_the_first_gpu_is_found(
    headers: &Vec<MmioHeader>,
    found: Option<usize>,
    slot: int,
)
    requires
        headers@.len() <= 8,
        call_ensures(find_virtio_gpu_mmio, (headers,), found),
        0 <= slot <= headers@.len(),
        no_gpu_among(headers@, slot),
    ensures
        slot == headers@.len() ==> found is None,
        slot < headers@.len() && headers@[slot].magic == 0x7472_6976 && headers@[slot].device_id == 16
            ==> found is Some && found->0 == 0x1000_1000 + slot * 0x1000,
{
    if slot < headers@.len() && headers@[slot].magic == 0x7472_6976 && headers@[slot].device_id
        == 16 {
        assert(headers@[slot].is_gpu());
    }
    if found is Some {
        let place = choose|place: int|
            0 <= place < headers@.len() && #[trigger] headers@[place].is_gpu() && found->0
                == slot_addr(place) && forall|earlier: int|
                0 <= earlier < place ==> !(#[trigger] headers@[earlier]).is_gpu();
        assert(headers@[place].magic == 0x7472_6976 && headers@[place].device_id == 16);
    } else {
        assert(no_gpu_among(headers@, headers@.len() as int));
    }
}

/// The framebuffer is as much of the buffer as the screen shows: all of it, or four bytes for each
/// pixel, whichever is less. It is described as it is, and it is described exactly where it has an
/// address, a length, a width and a height.
pub proof fn law_framebuffer_is_what_the_screen_shows(
    ptr: usize,
    buffer_len: usize,
    width: u32,
    height: u32,
    fb: Framebuffer,
    other: Framebuffer,
    info: Option<(usize, usize, usize, usize)>,
)
    requires
        call_ensures(init_graphics, (ptr, buffer_len, width, height), fb),
        call_ensures(framebuffer_info, (&other,), info),
    ensures
        fb.ptr == ptr && fb.width == width && fb.height == height,
        fb.len <= buffer_len,
        fb.len <= (width * height) * 4,
        fb.len == buffer_len || fb.len == (width * height) * 4,
        info is Some <==> other.ptr != 0 && other.len != 0 && other.width != 0 && other.height != 0,
        info is Some ==> info->0 == (other.ptr, other.len, other.width, other.height),
{
}

} // verus!
