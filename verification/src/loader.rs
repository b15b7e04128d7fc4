//! Loading a program: what its image puts where in a new address space.
//!
//! Every segment takes whole pages of its own, the heap starts on the page behind the last of
//! them, and the stack lies at the top of the lower half of the address space.

use crate::context;
use crate::elf::{self, check_head, read_image, segments_to_load, ElfHead, LoadError, ProgramHeader};
use crate::flags::{VmFlags, READ, USER, VALID, WRITE};
use crate::memory::{self, access_flags};
use crate::screen::user_data_flags;
use crate::space::Mapping;
use crate::sv39::{self, page_range, PageRange, PAGE_SIZE, PPN_COUNT};
use tg_kernel_context::LocalContext;
use vstd::prelude::*;

verus! {

/// The number of pages of a program's stack.
pub const USER_STACK_PAGES: usize = 2;

/// The page behind a program's stack.
pub const USER_STACK_END: usize = 0x400_0000;

/// The address of the first byte of a program's stack.
pub const USER_STACK_BOTTOM: u64 = 0x3f_ffff_e000;

/// The address behind a program's stack.
pub const USER_STACK_TOP: u64 = 0x40_0000_0000;

/// The address space register's mode field for Sv39.
pub const SATP_SV39: u64 = 0x8000_0000_0000_0000;

/// A segment of a program's image that is to be loaded.
#[derive(Clone, Copy, PartialEq, Eq, Structural, Debug)]
pub struct Segment {
    /// Where its bytes start in the image.
    pub offset: u64,
    /// How many bytes the image holds of it.
    pub file_size: u64,
    /// Its first address in memory.
    pub vaddr: u64,
    /// How many bytes it takes in memory; those that the image does not hold are 0.
    pub mem_size: u64,
    /// Whether the program reads it.
    pub read: bool,
    /// Whether the program writes it.
    pub write: bool,
    /// Whether the program executes it.
    pub execute: bool,
}

/// How a segment is put into memory.
#[derive(Clone, Copy, PartialEq, Eq, Structural, Debug)]
pub struct SegmentPlan {
    /// The pages that it takes.
    pub range: PageRange,
    /// Where its bytes start in the image.
    pub offset: usize,
    /// How many bytes are copied.
    pub len: usize,
    /// How far behind the start of its first page they go.
    pub shift: usize,
    /// The attributes of the pages.
    pub flags: VmFlags,
}

/// How a program is put into memory.
pub struct ProgramPlan {
    /// Its segments.
    pub segments: Vec<SegmentPlan>,
    /// Where its heap starts.
    pub heap_bottom: usize,
}

impl Segment {
    /// Whether the segment can be loaded from an image of `image_len` bytes: it takes some memory,
    /// below the stack, and what the image holds of it lies within the image and is no more than
    /// that.
    pub open spec fn loadable(self, image_len: int) -> bool {
        &&& 0 < self.mem_size
        &&& self.vaddr + self.mem_size <= USER_STACK_BOTTOM
        &&& self.vaddr + self.mem_size <= usize::MAX - (PAGE_SIZE - 1)
        &&& self.file_size <= self.mem_size
        &&& self.offset + self.file_size <= image_len
    }

    /// The end of the last page that the segment takes.
    pub open spec fn page_end(self) -> int {
        sv39::ceil_page(self.vaddr + self.mem_size) * PAGE_SIZE
    }

    /// How the segment is put into memory.
    pub open spec fn planned(self) -> SegmentPlan {
        SegmentPlan {
            range: sv39::pages_between(self.vaddr as int, self.vaddr + self.mem_size),
            offset: self.offset as usize,
            len: self.file_size as usize,
            shift: (self.vaddr as int % PAGE_SIZE as int) as usize,
            flags: VmFlags {
                bits: memory::access_bits(self.read, self.write, self.execute) as usize,
            },
        }
    }

    /// How the segment is put into memory, where it can be loaded.
    pub fn plan(&self, image_len: usize) -> (plan: Option<SegmentPlan>)
        ensures
            plan == if self.loadable(image_len as int) {
                Some(self.planned())
            } else {
                None
            },
            plan is Some <==> {
                &&& 0 < self.mem_size
                &&& self.file_size <= self.mem_size
                &&& self.offset + self.file_size <= image_len
                &&& self.vaddr + self.mem_size <= 0x3f_ffff_e000
                &&& self.vaddr + self.mem_size <= usize::MAX - 4095
            },
            plan matches Some(p) ==> {
                &&& p.offset == self.offset
                &&& p.len == self.file_size
                &&& p.range.start * 4096 + p.shift == self.vaddr
                &&& p.shift < 4096
                &&& self.vaddr + self.mem_size <= p.range.end * 4096 < self.vaddr + self.mem_size
                    + 4096
                &&& p.flags.bits == 17 + (if self.read {
                    2int
                } else {
                    0int
                }) + (if self.write {
                    4int
                } else {
                    0int
                }) + (if self.execute {
                    8int
                } else {
                    0int
                })
            },
    {
        let end: u128 = self.vaddr as u128 + self.mem_size as u128;
        let file_end: u128 = self.offset as u128 + self.file_size as u128;
        if self.mem_size == 0 || end > USER_STACK_BOTTOM as u128 || end > (usize::MAX - (PAGE_SIZE
            - 1)) as u128 || self.file_size > self.mem_size || file_end > image_len as u128 {
            return None;
        }
        Some(
            SegmentPlan {
                range: page_range(self.vaddr as usize, (self.vaddr + self.mem_size) as usize),
                offset: self.offset as usize,
                len: self.file_size as usize,
                shift: self.vaddr as usize % PAGE_SIZE,
                flags: access_flags(self.read, self.write, self.execute),
            },
        )
    }
}

/// Where the heap starts behind the first `n` segments: at the end of the highest page that one of
/// them takes.
pub open spec fn heap_start(segments: Seq<Segment>, n: int) -> int
    decreases n,
{
    if n <= 0 {
        0
    } else if heap_start(segments, n - 1) < segments[n - 1].page_end() {
        segments[n - 1].page_end()
    } else {
        heap_start(segments, n - 1)
    }
}

/// All segments can be loaded from an image of `image_len` bytes.
pub open spec fn all_loadable(segments: Seq<Segment>, image_len: int) -> bool {
    forall|i: int| 0 <= i < segments.len() ==> (#[trigger] segments[i]).loadable(image_len)
}

/// How a program is put into memory, where all its segments can be loaded.
pub fn plan_program(segments: &Vec<Segment>, image_len: usize) -> (plan: Option<ProgramPlan>)
    ensures
        plan is Some <==> forall|i: int|
            0 <= i < segments@.len() ==> (#[trigger] segments@[i]).loadable(image_len as int),
        plan is Some <==> all_loadable(segments@, image_len as int),
        plan matches Some(program) ==> {
            &&& program.segments@ == segments@.map_values(|segment: Segment| segment.planned())
            &&& program.heap_bottom == heap_start(segments@, segments@.len() as int)
        },
{
    let mut plans: Vec<SegmentPlan> = Vec::new();
    let mut heap_bottom: usize = 0;
    let mut i: usize = 0;
    while i < segments.len()
        invariant
            i <= segments@.len(),
            forall|j: int|
                0 <= j < i ==> (#[trigger] segments@[j]).loadable(image_len as int),
            plans@ =~= segments@.take(i as int).map_values(|segment: Segment| segment.planned()),
            heap_bottom == heap_start(segments@, i as int),
        decreases segments@.len() - i,
    {
        let segment = segments[i];
        match segment.plan(image_len) {
            None => {
                assert(!segments@[i as int].loadable(image_len as int));
                return None;
            },
            Some(plan) => {
                assert(sv39::ceil_page(segment.vaddr + segment.mem_size) * 4096 <= segment.vaddr
                    + segment.mem_size + 4095);
                let end: usize = plan.range.end * PAGE_SIZE;
                if heap_bottom < end {
                    heap_bottom = end;
                }
                plans.push(plan);
            },
        }
        i += 1;
    }
    assert(segments@.take(i as int) =~= segments@);
    Some(ProgramPlan { segments: plans, heap_bottom })
}

/// A program that is ready to be put into memory.
pub struct Program {
    /// The address at which it starts.
    pub entry: u64,
    /// How it is put there.
    pub plan: ProgramPlan,
}

impl Program {
    /// The program of an image with this head and these program headers.
    pub open spec fn comes_from(self, head: ElfHead, headers: Seq<ProgramHeader>) -> bool {
        let segments = elf::load_segments(headers, headers.len() as int);
        &&& self.entry == head.entry
        &&& self.plan.segments@ == segments.map_values(|segment: Segment| segment.planned())
        &&& self.plan.heap_bottom == heap_start(segments, segments.len() as int)
    }
}

/// Why an image with this head, these program headers and this length cannot be loaded; none where
/// it can.
pub open spec fn load_fault(
    head: Option<ElfHead>,
    headers: Seq<ProgramHeader>,
    image_len: int,
) -> Option<LoadError> {
    let segments = elf::load_segments(headers, headers.len() as int);
    match elf::head_fault(head, image_len) {
        Some(error) => Some(error),
        None => if forall|i: int|
            0 <= i < segments.len() ==> (#[trigger] segments[i]).loadable(image_len) {
            None
        } else {
            Some(LoadError::Unloadable)
        },
    }
}

/// The program of an image with this head, these program headers and this length.
pub fn program_from(
    head: Option<ElfHead>,
    headers: &Vec<ProgramHeader>,
    image_len: usize,
) -> (program: Result<Program, LoadError>)
    ensures
        match load_fault(head, headers@, image_len as int) {
            Some(error) => program is Err && program->Err_0 == error,
            None => program is Ok && program->Ok_0.comes_from(head->0, headers@),
        },
{
    match check_head(head, image_len) {
        Err(error) => Err(error),
        Ok(head) => match plan_program(&segments_to_load(headers), image_len) {
            None => Err(LoadError::Unloadable),
            Some(plan) => Ok(Program { entry: head.entry, plan }),
        },
    }
}

/// Why an image cannot be loaded; none where it can.
pub open spec fn image_fault(image: Seq<u8>) -> Option<LoadError> {
    load_fault(elf::elf_head(image), elf::elf_program_headers(image), image.len() as int)
}

/// The program of an image.
pub open spec fn program_of(program: Program, image: Seq<u8>) -> bool {
    program.comes_from(elf::elf_head(image)->0, elf::elf_program_headers(image))
}

/// The program of an image, where it can be loaded.
pub fn load_program(image: &[u8]) -> (program: Result<Program, LoadError>)
    ensures
        match image_fault(image@) {
            Some(error) => program is Err && program->Err_0 == error,
            None => program is Ok && program_of(program->Ok_0, image@),
        },
{
    match read_image(image) {
        Err(error) => Err(error),
        Ok((head, headers)) => program_from(Some(head), &headers, image.len()),
    }
}

/// A program, and the image that it comes from.
pub struct Loaded {
    /// The place of its image among all images.
    pub image: usize,
    /// The program.
    pub program: Program,
}

/// Whether the kernel gives up on an image: it is no ELF image, or its program headers cannot be
/// read. Other images that cannot be loaded are passed over.
pub open spec fn broken(fault: Option<LoadError>) -> bool {
    fault == Some(LoadError::NotElf) || fault == Some(LoadError::HeadersOutside)
}

/// The places of those among the first `n` images that can be loaded, in order.
pub open spec fn loaded_images(images: Seq<&[u8]>, n: int) -> Seq<int>
    decreases n,
{
    if n <= 0 {
        Seq::empty()
    } else if image_fault(images[n - 1]@) is None {
        loaded_images(images, n - 1).push(n - 1)
    } else {
        loaded_images(images, n - 1)
    }
}

/// The kernel gives up on none of the first `n` images.
pub open spec fn none_broken(images: Seq<&[u8]>, n: int) -> bool {
    forall|i: int| 0 <= i < n ==> !broken(image_fault((#[trigger] images[i])@))
}

/// An image is the first on which the kernel gives up.
pub open spec fn stopped_at(images: Seq<&[u8]>, place: int) -> bool {
    broken(image_fault(images[place]@)) && none_broken(images, place)
}

/// The programs are those of the images that can be loaded, in order.
pub open spec fn loaded_in_order(programs: Seq<Loaded>, images: Seq<&[u8]>) -> bool {
    let places = loaded_images(images, images.len() as int);
    &&& programs.len() == places.len()
    &&& forall|k: int| 0 <= k < places.len() ==> (#[trigger] programs[k]).image == places[k]
    &&& forall|k: int|
        0 <= k < places.len() ==> program_of((#[trigger] programs[k]).program, images[places[k]]@)
}

/// The programs of all images that can be loaded, in the order of the images; or the place of the
/// first image on which the kernel gives up.
pub fn load_programs(images: &Vec<&[u8]>) -> (loaded: Result<Vec<Loaded>, usize>)
    ensures
        loaded is Ok <==> forall|i: int|
            0 <= i < images@.len() ==> !broken(image_fault((#[trigger] images@[i])@)),
        loaded matches Ok(programs) ==> {
            let places = loaded_images(images@, images@.len() as int);
            &&& programs@.len() == places.len()
            &&& forall|k: int|
                0 <= k < places.len() ==> (#[trigger] programs@[k]).image == places[k]
            &&& forall|k: int|
                0 <= k < places.len() ==> program_of(
                    (#[trigger] programs@[k]).program,
                    images@[places[k]]@,
                )
        },
        loaded matches Err(place) ==> {
            &&& place < images@.len()
            &&& broken(image_fault(images@[place as int]@))
            &&& forall|i: int|
                0 <= i < place ==> !broken(image_fault((#[trigger] images@[i])@))
        },
        loaded matches Ok(programs) ==> none_broken(images@, images@.len() as int) && loaded_in_order(
            programs@,
            images@,
        ),
        loaded matches Err(place) ==> place < images@.len() && stopped_at(images@, place as int),
{
    let mut programs: Vec<Loaded> = Vec::new();
    let mut i: usize = 0;
    while i < images.len()
        invariant
            i <= images@.len(),
            forall|j: int| 0 <= j < i ==> !broken(image_fault((#[trigger] images@[j])@)),
            programs@.len() == loaded_images(images@, i as int).len(),
            forall|k: int|
                0 <= k < programs@.len() ==> (#[trigger] programs@[k]).image == loaded_images(
                    images@,
                    i as int,
                )[k],
            forall|k: int|
                0 <= k < programs@.len() ==> program_of(
                    (#[trigger] programs@[k]).program,
                    images@[loaded_images(images@, i as int)[k]]@,
                ),
        decreases images@.len() - i,
    {
        match load_program(images[i]) {
            Ok(program) => programs.push(Loaded { image: i, program }),
            Err(LoadError::NotElf) | Err(LoadError::HeadersOutside) => {
                assert(broken(image_fault(images@[i as int]@)));
                return Err(i);
            },
            Err(LoadError::NotRunnable) | Err(LoadError::Unloadable) => {},
        }
        i += 1;
    }
    Ok(programs)
}

/// Where a program finds its stack, which lies in the physical pages at `stack`.
pub open spec fn user_stack_mapping(stack: int) -> Mapping {
    Mapping {
        range: PageRange {
            start: (USER_STACK_END - USER_STACK_PAGES) as usize,
            end: USER_STACK_END,
        },
        ppn: (stack / PAGE_SIZE as int) as usize,
        flags: VmFlags { bits: (USER + WRITE + READ + VALID) as usize },
    }
}

/// Where a program finds its stack, which lies in the physical pages at `stack`.
pub fn user_stack(stack: usize) -> (mapping: Mapping)
    ensures
        mapping == user_stack_mapping(stack as int),
        mapping.range.start == 0x3ff_fffe && mapping.range.end == 0x400_0000,
        mapping.ppn == stack as int / 4096,
        mapping.flags.bits == 23,
{
    Mapping {
        range: PageRange { start: USER_STACK_END - USER_STACK_PAGES, end: USER_STACK_END },
        ppn: stack / PAGE_SIZE,
        flags: user_data_flags(),
    }
}

/// The context of a program that starts at `entry`: in user mode, with interrupts open, on its
/// empty stack.
pub fn user_thread(entry: usize) -> (ctx: LocalContext)
    ensures
        context::context_pc(ctx) == entry,
        !context::context_supervisor(ctx),
        context::context_interrupt(ctx),
        context::context_registers(ctx)[2] == 0x40_0000_0000u64 as usize,
        context::context_registers(ctx) == Map::new(
            |n: int| 1 <= n <= 31,
            |n: int|
                if n == 2 {
                    USER_STACK_TOP as usize
                } else {
                    0
                },
        ),
{
    let mut ctx = LocalContext::user(entry);
    *ctx.sp_mut() = USER_STACK_TOP as usize;
    ctx
}

/// The address space register's value for the Sv39 address space whose root page table is the
/// physical page `root_ppn`.
pub fn satp_of(root_ppn: u64) -> (satp: u64)
    requires
        root_ppn < PPN_COUNT,
    ensures
        satp == SATP_SV39 + root_ppn,
        satp / 0x1000_0000_0000_0000 == 8,
        satp % 0x1000_0000_0000_0000 == root_ppn,
{
    SATP_SV39 + root_ppn
}

/// Programs come in the order of their images, each image that can be loaded gives exactly one, and
/// no other image gives any.
pub proof fn law_programs_keep_the_order_of_images(images: Seq<&[u8]>, n: int)
    requires
        0 <= n <= images.len(),
    ensures
        ({
            let places = loaded_images(images, n);
            &&& forall|k: int, l: int|
                0 <= k < l < places.len() ==> #[trigger] places[k] < #[trigger] places[l]
            &&& forall|i: int|
                0 <= i < n ==> #[trigger] places.contains(i) == (image_fault(images[i]@) is None)
            &&& forall|k: int| 0 <= k < places.len() ==> 0 <= #[trigger] places[k] < n
        }),
    decreases n,
{
    if n > 0 {
        law_programs_keep_the_order_of_images(images, n - 1);
        let before = loaded_images(images, n - 1);
        let places = loaded_images(images, n);
        assert forall|i: int| 0 <= i < n implies #[trigger] places.contains(i) == (image_fault(
            images[i]@,
        ) is None) by {
            if i < n - 1 {
                assert(before.contains(i) == (image_fault(images[i]@) is None));
                if before.contains(i) {
                    let k = choose|k: int| 0 <= k < before.len() && before[k] == i;
                    assert(places[k] == i);
                }
            } else if image_fault(images[i]@) is None {
                assert(places[places.len() - 1] == i);
            }
        }
    }
}

/// A program header that is to be loaded has its segment loaded, and segments come in the order of
/// their headers: each stands behind those of the headers before it.
pub proof fn law_segments_keep_the_order_of_headers(headers: Seq<ProgramHeader>, n: int, i: int)
    requires
        0 <= i < n <= headers.len(),
        headers[i].load,
    ensures
        ({
            let before = elf::load_segments(headers, i);
            let all = elf::load_segments(headers, n);
            &&& before.len() < all.len()
            &&& all[before.len() as int] == headers[i].segment
        }),
    decreases n,
{
    if i < n - 1 {
        law_segments_keep_the_order_of_headers(headers, n - 1, i);
    }
}

/// A segment's bytes come to lie at their addresses: byte `k` of what the image holds, put `shift`
/// bytes behind the start of the first page, is in the pages of the segment at address `vaddr + k`.
pub proof fn law_segment_bytes_are_in_place(segment: Segment, image_len: int, k: int)
    requires
        segment.loadable(image_len),
        0 <= k < segment.file_size,
    ensures
        ({
            let plan = segment.planned();
            let vpn = sv39::floor_page(segment.vaddr + k);
            &&& plan.range.holds(vpn)
            &&& (vpn - plan.range.start) * PAGE_SIZE + (segment.vaddr + k) % PAGE_SIZE as int
                == plan.shift + k
        }),
{
}

/// A segment has room for its bytes, and takes pages below the stack only.
pub proof fn law_segment_fits(segment: Segment, image_len: int, stack: int)
    requires
        segment.loadable(image_len),
    ensures
        ({
            let plan = segment.planned();
            &&& plan.shift + plan.len <= (plan.range.end - plan.range.start) * PAGE_SIZE
            &&& plan.range.end <= user_stack_mapping(stack).range.start
        }),
{
}

/// The heap starts on a page of its own: at a page boundary, behind every page of every segment,
/// and no later than the stack.
pub proof fn law_heap_starts_behind_the_program(
    segments: Seq<Segment>,
    image_len: int,
    n: int,
    i: int,
)
    requires
        0 <= i < n <= segments.len(),
        forall|j: int| 0 <= j < segments.len() ==> (#[trigger] segments[j]).loadable(image_len),
    ensures
        heap_start(segments, n) % PAGE_SIZE as int == 0,
        segments[i].planned().range.end * PAGE_SIZE <= heap_start(segments, n),
        heap_start(segments, n) <= USER_STACK_BOTTOM,
    decreases n,
{
    let last = segments[n - 1];
    assert(last.loadable(image_len));
    assert(segments[i].loadable(image_len));
    assert(heap_start(segments, 0) == 0);
    if i < n - 1 {
        law_heap_starts_behind_the_program(segments, image_len, n - 1, i);
    } else if n > 1 {
        law_heap_starts_behind_the_program(segments, image_len, n - 1, n - 2);
    }
}

impl SegmentPlan {
    /// The byte at an address once the plan has been followed: fresh pages are all 0, and the planned
    /// part of the image is copied into them.
    pub open spec fn byte_at(self, image: Seq<u8>, addr: int) -> u8 {
        let place = addr - self.range.start * 4096;
        if self.shift <= place < self.shift + self.len {
            image[self.offset + place - self.shift]
        } else {
            0
        }
    }
}

/// A loaded segment is in memory as its image has it: byte `k` of what the image holds of it is at
/// address `vaddr + k`, and the rest of its memory is 0. All of it is on the segment's own pages.
pub proof fn law_memory_holds_the_segment(
    segment: Segment,
    image: Seq<u8>,
    image_len: usize,
    plan: SegmentPlan,
    k: int,
)
    requires
        image.len() == image_len,
        call_ensures(Segment::plan, (&segment, image_len), Some(plan)),
        0 <= k < segment.mem_size,
    ensures
        k < segment.file_size ==> plan.byte_at(image, segment.vaddr + k) == image[segment.offset + k],
        k >= segment.file_size ==> plan.byte_at(image, segment.vaddr + k) == 0,
        plan.range.start * 4096 <= segment.vaddr + k < plan.range.end * 4096,
        plan.offset + plan.len <= image.len(),
        plan.shift + plan.len <= (plan.range.end - plan.range.start) * 4096,
{
}

/// A program is put into memory segment by segment, in order, each by its own plan; and its heap starts
/// where the last of its pages ends: no page of a segment is above it, and one ends there.
pub proof fn law_programs_are_planned_segment_by_segment(
    segments: &Vec<Segment>,
    image_len: usize,
    program: ProgramPlan,
    i: int,
    plan: Option<SegmentPlan>,
)
    requires
        call_ensures(plan_program, (segments, image_len), Some(program)),
        0 <= i < segments@.len(),
        call_ensures(Segment::plan, (&segments@[i], image_len), plan),
    ensures
        program.segments@.len() == segments@.len(),
        plan == Some(program.segments@[i]),
        program.segments@[i].range.end * 4096 <= program.heap_bottom,
        exists|j: int|
            0 <= j < segments@.len() && (#[trigger] program.segments@[j]).range.end * 4096
                == program.heap_bottom,
{
    assert(all_loadable(segments@, image_len as int));
    assert(segments@[i].loadable(image_len as int));
    assert(program.segments@[i] == segments@[i].planned());
    law_heap_starts_behind_the_program(segments@, image_len as int, segments@.len() as int, i);
    lemma_heap_starts_at_a_page_end(segments@, image_len as int, segments@.len() as int);
    let j = choose|j: int|
        0 <= j < segments@.len() && (#[trigger] segments@[j]).page_end() == heap_start(
            segments@,
            segments@.len() as int,
        );
    assert(segments@[j].loadable(image_len as int));
    assert(program.segments@[j] == segments@[j].planned());
}

/// The heap starts at the end of a segment's last page.
proof fn lemma_heap_starts_at_a_page_end(segments: Seq<Segment>, image_len: int, n: int)
    requires
        0 < n <= segments.len(),
        forall|j: int| 0 <= j < segments.len() ==> (#[trigger] segments[j]).loadable(image_len),
    ensures
        exists|j: int|
            0 <= j < n && (#[trigger] segments[j]).page_end() == heap_start(segments, n),
    decreases n,
{
    assert(segments[n - 1].loadable(image_len));
    assert(heap_start(segments, 0) == 0);
    if n > 1 {
        lemma_heap_starts_at_a_page_end(segments, image_len, n - 1);
        let j = choose|j: int|
            0 <= j < n - 1 && (#[trigger] segments[j]).page_end() == heap_start(segments, n - 1);
        assert(segments[j].page_end() == heap_start(segments, n - 1));
    }
    assert(segments[n - 1].page_end() > 0);
}

/// A program is planned exactly where each of its segments can be.
pub proof fn law_programs_are_planned_where_their_segments_are(
    segments: &Vec<Segment>,
    image_len: usize,
    program: Option<ProgramPlan>,
    i: int,
)
    requires
        call_ensures(plan_program, (segments, image_len), program),
    ensures
        program is Some && 0 <= i < segments@.len() ==> fits_below_the_stack(segments@[i], image_len),
        (forall|j: int|
            0 <= j < segments@.len() ==> fits_below_the_stack(#[trigger] segments@[j], image_len))
            ==> program is Some,
        segments@.len() == 0 ==> program is Some && program->0.segments@.len() == 0
            && program->0.heap_bottom == 0,
{
    if program is Some && 0 <= i < segments@.len() {
        assert(all_loadable(segments@, image_len as int));
        assert(segments@[i].loadable(image_len as int));
    }
    if forall|j: int|
        0 <= j < segments@.len() ==> fits_below_the_stack(#[trigger] segments@[j], image_len) {
        assert forall|j: int| 0 <= j < segments@.len() implies (#[trigger] segments@[j]).loadable(
            image_len as int,
        ) by {
            assert(fits_below_the_stack(segments@[j], image_len));
        }
        assert(all_loadable(segments@, image_len as int));
    }
}

/// A segment can be planned: it takes memory below the stack, no less than the image holds of it, and
/// the image has all of that.
pub open spec fn fits_below_the_stack(segment: Segment, image_len: usize) -> bool {
    &&& 0 < segment.mem_size
    &&& segment.file_size <= segment.mem_size
    &&& segment.offset + segment.file_size <= image_len
    &&& segment.vaddr + segment.mem_size <= 0x3f_ffff_e000
    &&& segment.vaddr + segment.mem_size <= usize::MAX - 4095
}

/// A program comes from its image alone, step by step: what reading the image gives decides, an error
/// there is the error of the whole, the segments to load are planned as they are, and the program
/// starts where the head says.
pub proof fn law_a_program_follows_from_its_image(
    image: &[u8],
    image_len: usize,
    read: Result<(ElfHead, Vec<ProgramHeader>), LoadError>,
    segments: Vec<Segment>,
    plan: Option<ProgramPlan>,
    program: Result<Program, LoadError>,
)
    requires
        image_len == image@.len(),
        call_ensures(read_image, (image,), read),
        read matches Ok((head, headers)) ==> call_ensures(segments_to_load, (&headers,), segments),
        call_ensures(plan_program, (&segments, image_len), plan),
        call_ensures(load_program, (image,), program),
    ensures
        read matches Err(error) ==> program is Err && program->Err_0 == error,
        read is Ok && plan is None ==> program is Err && program->Err_0 == LoadError::Unloadable,
        read is Ok && plan is Some ==> {
            &&& program is Ok
            &&& program->Ok_0.entry == read->Ok_0.0.entry
            &&& program->Ok_0.plan.segments@ == plan->0.segments@
            &&& program->Ok_0.plan.heap_bottom == plan->0.heap_bottom
        },
{
    if read is Ok {
        let (head, headers) = read->Ok_0;
        let wanted = elf::load_segments(headers@, headers@.len() as int);
        assert(segments@ == wanted);
        assert(plan is Some <==> all_loadable(wanted, image_len as int));
    }
}

/// The same of an image whose head and program headers have been read already.
pub proof fn law_a_program_follows_from_head_and_headers(
    head: Option<ElfHead>,
    headers: &Vec<ProgramHeader>,
    image_len: usize,
    checked: Result<ElfHead, LoadError>,
    segments: Vec<Segment>,
    plan: Option<ProgramPlan>,
    program: Result<Program, LoadError>,
)
    requires
        call_ensures(check_head, (head, image_len), checked),
        call_ensures(segments_to_load, (headers,), segments),
        call_ensures(plan_program, (&segments, image_len), plan),
        call_ensures(program_from, (head, headers, image_len), program),
    ensures
        checked matches Err(error) ==> program is Err && program->Err_0 == error,
        checked is Ok && plan is None ==> program is Err && program->Err_0 == LoadError::Unloadable,
        checked is Ok && plan is Some ==> {
            &&& program is Ok
            &&& program->Ok_0.entry == checked->Ok_0.entry
            &&& program->Ok_0.plan.segments@ == plan->0.segments@
            &&& program->Ok_0.plan.heap_bottom == plan->0.heap_bottom
        },
{
    let wanted = elf::load_segments(headers@, headers@.len() as int);
    assert(plan is Some <==> all_loadable(wanted, image_len as int));
}

/// Loading many images is loading each of them: every image that gives a program has it in the list,
/// with its place among the images, in their order; the first image that is no ELF image or whose
/// program headers cannot be read stops it all, and no other image does.
pub proof fn law_programs_are_loaded_one_by_one(
    images: &Vec<&[u8]>,
    loaded: Result<Vec<Loaded>, usize>,
    i: int,
    single: Result<Program, LoadError>,
)
    requires
        call_ensures(load_programs, (images,), loaded),
        0 <= i < images@.len(),
        call_ensures(load_program, (images@[i],), single),
    ensures
        single is Err && (single->Err_0 is NotElf || single->Err_0 is HeadersOutside) ==> loaded is Err
            && loaded->Err_0 <= i,
        loaded is Err && loaded->Err_0 == i ==> single is Err && (single->Err_0 is NotElf
            || single->Err_0 is HeadersOutside),
        loaded is Ok && single is Ok ==> exists|k: int|
            0 <= k < loaded->Ok_0@.len() && (#[trigger] loaded->Ok_0@[k]).image == i
                && loaded->Ok_0@[k].program.entry == single->Ok_0.entry
                && loaded->Ok_0@[k].program.plan.segments@ == single->Ok_0.plan.segments@
                && loaded->Ok_0@[k].program.plan.heap_bottom == single->Ok_0.plan.heap_bottom,
        loaded is Ok && single is Err ==> forall|k: int|
            0 <= k < loaded->Ok_0@.len() ==> (#[trigger] loaded->Ok_0@[k]).image != i,
        loaded is Ok ==> forall|k: int, l: int|
            0 <= k < l < loaded->Ok_0@.len() ==> (#[trigger] loaded->Ok_0@[k]).image < (
            #[trigger] loaded->Ok_0@[l]).image,
{
    let n = images@.len() as int;
    let places = loaded_images(images@, n);
    law_programs_keep_the_order_of_images(images@, n);
    if loaded is Ok {
        let programs = loaded->Ok_0@;
        assert(loaded_in_order(programs, images@));
        assert forall|k: int, l: int| 0 <= k < l < programs.len() implies (
        #[trigger] programs[k]).image < (#[trigger] programs[l]).image by {
            assert(places[k] < places[l]);
        }
        if single is Ok {
            assert(places.contains(i));
            let k = choose|k: int| 0 <= k < places.len() && places[k] == i;
            assert(programs[k].image == i);
        } else {
            assert(!places.contains(i));
            assert forall|k: int| 0 <= k < programs.len() implies (#[trigger] programs[k]).image
                != i by {
                assert(programs[k].image == places[k]);
                assert(places.contains(places[k]));
            }
        }
    } else {
        assert(stopped_at(images@, loaded->Err_0 as int));
    }
}

} // verus!
