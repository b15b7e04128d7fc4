//! What the kernel takes from a program's ELF image, as `xmas_elf` reads it.

use crate::loader::Segment;
use vstd::prelude::*;
use xmas_elf::{header, program, ElfFile};

verus! {

/// The size of a 64-bit program header.
pub const PROGRAM_HEADER_SIZE: u16 = 56;

/// The alignment of a 64-bit program header.
pub const PROGRAM_HEADER_ALIGN: u16 = 8;

/// What the head of an ELF image says.
#[derive(Clone, Copy, PartialEq, Eq, Structural, Debug)]
pub struct ElfHead {
    /// Whether the image is a 64-bit one.
    pub wide: bool,
    /// Whether it can be executed.
    pub executable: bool,
    /// Whether it is for RISC-V.
    pub riscv: bool,
    /// The address at which the program starts.
    pub entry: u64,
    /// Where the program headers start in the image.
    pub ph_offset: u64,
    /// The distance from one program header to the next.
    pub ph_entry_size: u16,
    /// The number of program headers.
    pub ph_count: u16,
}

/// What a program header says.
#[derive(Clone, Copy, PartialEq, Eq, Structural, Debug)]
pub struct ProgramHeader {
    /// Whether its segment is to be loaded.
    pub load: bool,
    /// Its segment.
    pub segment: Segment,
}

/// Why an image cannot be loaded.
#[derive(Clone, Copy, PartialEq, Eq, Structural, Debug)]
pub enum LoadError {
    /// It is no ELF image.
    NotElf,
    /// It is not a 64-bit RISC-V executable.
    NotRunnable,
    /// Its program headers are not where they can be read.
    HeadersOutside,
    /// One of its segments cannot be put into memory.
    Unloadable,
}

/// What `xmas_elf` reads from the head of an image; none where it takes the image for no ELF image.
pub uninterp spec fn elf_head(image: Seq<u8>) -> Option<ElfHead>;

/// The program headers that `xmas_elf` finds in an image, in order.
pub uninterp spec fn elf_program_headers(image: Seq<u8>) -> Seq<ProgramHeader>;

/// `xmas_elf::ElfFile::new` reads the head of an image.
///
/// Which heads it accepts and what it reads from them depends on the image's bytes alone; numbers
/// are taken in the byte order of the machine, which is the same on all that the kernel is built
/// for. It asks for an image at an address that is a multiple of 8, so it is given a copy there.
#[verifier::external_body]
fn read_head(image: &[u8]) -> (head: Option<ElfHead>)
    ensures
        head == elf_head(image@),
{
    let mut place = vec![0u8; image.len() + 8];
    let start = 8 - place.as_ptr() as usize % 8;
    place[start..start + image.len()].copy_from_slice(image);
    ElfFile::new(&place[start..start + image.len()]).ok().map(|elf| ElfHead {
        wide: matches!(elf.header.pt2, header::HeaderPt2::Header64(_)),
        executable: elf.header.pt2.type_().as_type() == header::Type::Executable,
        riscv: elf.header.pt2.machine().as_machine() == header::Machine::RISC_V,
        entry: elf.header.pt2.entry_point(),
        ph_offset: elf.header.pt2.ph_offset(),
        ph_entry_size: elf.header.pt2.ph_entry_size(),
        ph_count: elf.header.pt2.ph_count(),
    })
}

/// `xmas_elf::ElfFile::program_iter` goes through the program headers of an image.
///
/// What it finds depends on the image's bytes alone, with numbers in the byte order of the machine;
/// there are as many headers as the head counts, and none where the head gives no place or size.
/// It panics where a header does not lie in the image, is too short or is not aligned, so the
/// headers have to be inside. The image is given to it at an address that is a multiple of 8.
#[verifier::external_body]
fn read_program_headers(image: &[u8]) -> (headers: Vec<ProgramHeader>)
    requires
        elf_head(image@) is Some,
        elf_head(image@)->0.wide,
        elf_head(image@)->0.headers_inside(image@.len() as int),
    ensures
        headers@ == elf_program_headers(image@),
        headers@.len() == elf_head(image@)->0.header_count(),
{
    let mut place = vec![0u8; image.len() + 8];
    let start = 8 - place.as_ptr() as usize % 8;
    place[start..start + image.len()].copy_from_slice(image);
    let elf = ElfFile::new(&place[start..start + image.len()]).unwrap();
    elf.program_iter().map(|entry| ProgramHeader {
        load: entry.get_type() == Ok(program::Type::Load),
        segment: Segment {
            offset: entry.offset(), file_size: entry.file_size(),
            vaddr: entry.virtual_addr(), mem_size: entry.mem_size(),
            read: entry.flags().is_read(), write: entry.flags().is_write(),
            execute: entry.flags().is_execute(),
        },
    }).collect()
}

impl ElfHead {
    /// Whether the kernel can run the program: a 64-bit RISC-V executable.
    pub open spec fn runnable(self) -> bool {
        self.wide && self.executable && self.riscv
    }

    /// The number of program headers that are there to be read.
    pub open spec fn header_count(self) -> int {
        if self.ph_offset == 0 || self.ph_entry_size == 0 {
            0
        } else {
            self.ph_count as int
        }
    }

    /// Whether all program headers lie in an image of `image_len` bytes, each of them whole and
    /// aligned.
    pub open spec fn headers_inside(self, image_len: int) -> bool {
        self.header_count() > 0 ==> {
            &&& self.ph_offset as int % PROGRAM_HEADER_ALIGN as int == 0
            &&& self.header_count() == 1 || self.ph_entry_size as int % PROGRAM_HEADER_ALIGN as int
                == 0
            &&& self.ph_entry_size >= PROGRAM_HEADER_SIZE
            &&& self.ph_offset + self.header_count() * self.ph_entry_size <= image_len
        }
    }

    /// Whether all program headers lie in an image of `image_len` bytes, each of them whole and
    /// aligned.
    pub fn has_headers_inside(&self, image_len: usize) -> (inside: bool)
        ensures
            inside == self.headers_inside(image_len as int),
    {
        if self.ph_offset == 0 || self.ph_entry_size == 0 || self.ph_count == 0 {
            return true;
        }
        let count: u64 = self.ph_count as u64;
        let size: u64 = self.ph_entry_size as u64;
        assert(count * size <= 0xffff * 0xffff) by (nonlinear_arith)
            requires
                count <= 0xffff,
                size <= 0xffff,
        ;
        let end: u128 = self.ph_offset as u128 + (count * size) as u128;
        self.ph_offset % 8 == 0 && (count == 1 || size % 8 == 0) && self.ph_entry_size
            >= PROGRAM_HEADER_SIZE && end <= image_len as u128
    }
}

/// What is wrong with an image by its head, `head` being what it says and `image_len` the image's
/// length.
pub open spec fn head_fault(head: Option<ElfHead>, image_len: int) -> Option<LoadError> {
    match head {
        None => Some(LoadError::NotElf),
        Some(head) => if !head.runnable() {
            Some(LoadError::NotRunnable)
        } else if !head.headers_inside(image_len) {
            Some(LoadError::HeadersOutside)
        } else {
            None
        },
    }
}

/// The head of an image that is a 64-bit RISC-V executable and has its program headers inside.
pub fn check_head(head: Option<ElfHead>, image_len: usize) -> (checked: Result<ElfHead, LoadError>)
    ensures
        match head_fault(head, image_len as int) {
            Some(error) => checked == Err::<ElfHead, LoadError>(error),
            None => checked is Ok && head == Some(checked->Ok_0),
        },
{
    match head {
        None => Err(LoadError::NotElf),
        Some(head) => if !(head.wide && head.executable && head.riscv) {
            Err(LoadError::NotRunnable)
        } else if !head.has_headers_inside(image_len) {
            Err(LoadError::HeadersOutside)
        } else {
            Ok(head)
        },
    }
}

/// The segments to be loaded among those of the first `n` program headers, in order.
pub open spec fn load_segments(headers: Seq<ProgramHeader>, n: int) -> Seq<Segment>
    decreases n,
{
    if n <= 0 {
        Seq::empty()
    } else if headers[n - 1].load {
        load_segments(headers, n - 1).push(headers[n - 1].segment)
    } else {
        load_segments(headers, n - 1)
    }
}

/// The segments to be loaded, in order.
pub fn segments_to_load(headers: &Vec<ProgramHeader>) -> (segments: Vec<Segment>)
    ensures
        segments@ == load_segments(headers@, headers@.len() as int),
{
    let mut segments: Vec<Segment> = Vec::new();
    let mut i: usize = 0;
    while i < headers.len()
        invariant
            i <= headers@.len(),
            segments@ == load_segments(headers@, i as int),
        decreases headers@.len() - i,
    {
        if headers[i].load {
            segments.push(headers[i].segment);
        }
        i += 1;
    }
    segments
}

/// Reads the head of an image and, where nothing is wrong with it, the program headers.
pub fn read_image(image: &[u8]) -> (read: Result<(ElfHead, Vec<ProgramHeader>), LoadError>)
    ensures
        match head_fault(elf_head(image@), image@.len() as int) {
            Some(error) => read is Err && read->Err_0 == error,
            None => {
                &&& read is Ok
                &&& elf_head(image@) == Some(read->Ok_0.0)
                &&& read->Ok_0.1@ == elf_program_headers(image@)
                &&& read->Ok_0.1@.len() == read->Ok_0.0.header_count()
            },
        },
{
    match check_head(read_head(image), image.len()) {
        Err(error) => Err(error),
        Ok(head) => Ok((head, read_program_headers(image))),
    }
}

/// A head passes exactly where it is that of a 64-bit RISC-V executable with its program headers in
/// the image, and each cause of failure has its own error: no head, another kind of image, headers
/// that cannot be read.
pub proof fn law_heads_are_checked(
    head: Option<ElfHead>,
    image_len: usize,
    checked: Result<ElfHead, LoadError>,
)
    requires
        call_ensures(check_head, (head, image_len), checked),
    ensures
        head is None ==> checked == Err::<ElfHead, LoadError>(LoadError::NotElf),
        head matches Some(h) ==> {
            let unfit = !h.wide || !h.executable || !h.riscv;
            let readable = h.ph_offset == 0 || h.ph_entry_size == 0 || h.ph_count == 0 || {
                &&& h.ph_offset % 8 == 0
                &&& h.ph_count == 1 || h.ph_entry_size % 8 == 0
                &&& 56 <= h.ph_entry_size
                &&& h.ph_offset + h.ph_count * h.ph_entry_size <= image_len
            };
            &&& unfit ==> checked == Err::<ElfHead, LoadError>(LoadError::NotRunnable)
            &&& !unfit && !readable ==> checked == Err::<ElfHead, LoadError>(
                LoadError::HeadersOutside,
            )
            &&& !unfit && readable ==> checked == Ok::<ElfHead, LoadError>(h)
        },
{
}

/// Program headers that are inside can be read: each is aligned, and its 56 bytes lie in the image.
pub proof fn law_headers_inside_can_be_read(head: ElfHead, image_len: int, i: int)
    requires
        head.headers_inside(image_len),
        head.ph_offset != 0,
        head.ph_entry_size != 0,
        0 <= i < head.ph_count,
    ensures
        (head.ph_offset + i * head.ph_entry_size) % 8 == 0,
        head.ph_offset + i * head.ph_entry_size + 56 <= image_len,
{
    let size = head.ph_entry_size as int;
    let count = head.ph_count as int;
    assert(i * size + size <= count * size) by (nonlinear_arith)
        requires
            0 <= i < count,
            0 <= size,
    ;
    if count == 1 {
        assert(i == 0);
        assert(i * size == 0) by (nonlinear_arith)
            requires
                i == 0,
        ;
    } else {
        let eighth = size / 8;
        assert(i * size == 8 * (i * eighth)) by (nonlinear_arith)
            requires
                size == 8 * eighth,
        ;
    }
}

/// What is loaded is what the program headers say is to be loaded: each of those segments, and no
/// other, in the order of their headers.
pub proof fn law_what_headers_say_is_loaded(
    headers: &Vec<ProgramHeader>,
    segments: Vec<Segment>,
    i: int,
    k: int,
)
    requires
        call_ensures(segments_to_load, (headers,), segments),
        0 <= i < headers@.len(),
        0 <= k < segments@.len(),
    ensures
        headers@[i].load ==> segments@.contains(headers@[i].segment),
        exists|j: int|
            0 <= j < headers@.len() && (#[trigger] headers@[j]).load && headers@[j].segment
                == segments@[k],
        segments@.len() <= headers@.len(),
        (forall|j: int| 0 <= j < headers@.len() ==> (#[trigger] headers@[j]).load) ==> segments@.len()
            == headers@.len(),
{
    let n = headers@.len() as int;
    lemma_load_segments(headers@, n, k);
    if headers@[i].load {
        lemma_load_header_is_there(headers@, n, i);
    }
}

/// Every loaded segment has its header, and there are no more of them than headers.
proof fn lemma_load_segments(headers: Seq<ProgramHeader>, n: int, k: int)
    requires
        0 <= n <= headers.len(),
    ensures
        load_segments(headers, n).len() <= n,
        0 <= k < load_segments(headers, n).len() ==> exists|j: int|
            0 <= j < n && (#[trigger] headers[j]).load && headers[j].segment == load_segments(
                headers,
                n,
            )[k],
        (forall|j: int| 0 <= j < n ==> (#[trigger] headers[j]).load) ==> load_segments(
            headers,
            n,
        ).len() == n,
    decreases n,
{
    if n > 0 {
        lemma_load_segments(headers, n - 1, k);
        let all = load_segments(headers, n);
        let before = load_segments(headers, n - 1);
        if 0 <= k < all.len() {
            if k < before.len() {
                let j = choose|j: int|
                    0 <= j < n - 1 && (#[trigger] headers[j]).load && headers[j].segment == before[k];
                assert(headers[j].segment == all[k]);
            } else {
                assert(headers[n - 1].load && headers[n - 1].segment == all[k]);
            }
        }
        if forall|j: int| 0 <= j < n ==> (#[trigger] headers[j]).load {
            assert(headers[n - 1].load);
        }
    }
}

/// Every header that is to be loaded has its segment.
proof fn lemma_load_header_is_there(headers: Seq<ProgramHeader>, n: int, i: int)
    requires
        0 <= i < n <= headers.len(),
        headers[i].load,
    ensures
        load_segments(headers, n).contains(headers[i].segment),
    decreases n,
{
    let all = load_segments(headers, n);
    if i == n - 1 {
        assert(all[all.len() - 1] == headers[i].segment);
    } else {
        lemma_load_header_is_there(headers, n - 1, i);
        let before = load_segments(headers, n - 1);
        let k = choose|k: int| 0 <= k < before.len() && before[k] == headers[i].segment;
        assert(all[k] == headers[i].segment);
    }
}

} // verus!
