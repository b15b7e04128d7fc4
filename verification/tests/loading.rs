//! Putting a program into memory.

use ch4_kernel::flags::VmFlags;
use ch4_kernel::elf::{
    check_head, read_image, segments_to_load, ElfHead, LoadError, ProgramHeader,
};
use ch4_kernel::loader::{
    load_program, load_programs, plan_program, program_from, satp_of, user_stack, user_thread,
    Segment, SegmentPlan, USER_STACK_BOTTOM,
};
use ch4_kernel::memory::access_flags;
use ch4_kernel::space::Mapping;
use ch4_kernel::sv39::PageRange;

const CODE: Segment = Segment {
    offset: 0x1000,
    file_size: 0x1234,
    vaddr: 0x10000,
    mem_size: 0x1234,
    read: true,
    write: false,
    execute: true,
};

const DATA: Segment = Segment {
    offset: 0x2238,
    file_size: 0x10,
    vaddr: 0x12238,
    mem_size: 0x2000,
    read: true,
    write: true,
    execute: false,
};

fn loads(segment: Segment, image_len: usize) -> bool {
    segment.plan(image_len).is_some()
}

#[test]
fn segments_take_their_pages() {
    let plan = plan_program(&vec![DATA, CODE], 0x2248).unwrap();
    assert_eq!(
        plan.segments,
        vec![
            SegmentPlan {
                range: PageRange { start: 0x12, end: 0x15 },
                offset: 0x2238,
                len: 0x10,
                shift: 0x238,
                flags: VmFlags { bits: 23 },
            },
            SegmentPlan {
                range: PageRange { start: 0x10, end: 0x12 },
                offset: 0x1000,
                len: 0x1234,
                shift: 0,
                flags: VmFlags { bits: 27 },
            },
        ]
    );
    assert_eq!(plan.heap_bottom, 0x15000);
}

#[test]
fn a_program_without_segments() {
    let plan = plan_program(&Vec::new(), 0).unwrap();
    assert!(plan.segments.is_empty());
    assert_eq!(plan.heap_bottom, 0);
}

#[test]
fn segments_that_cannot_be_loaded() {
    assert!(loads(CODE, 0x2234));
    assert!(!loads(CODE, 0x2233));
    assert!(!loads(Segment { mem_size: 0x1233, ..CODE }, 0x2234));
    assert!(!loads(Segment { file_size: 0, mem_size: 0, ..CODE }, 0x2234));
    let top = USER_STACK_BOTTOM - 0x1234;
    assert!(loads(Segment { vaddr: top, ..CODE }, 0x2234));
    assert!(!loads(Segment { vaddr: top + 1, ..CODE }, 0x2234));
    assert!(!loads(Segment { vaddr: u64::MAX, ..CODE }, 0x2234));
    assert!(!loads(Segment { offset: u64::MAX, ..CODE }, 0x2234));
    let beyond = Segment { offset: 0x2239, ..DATA };
    assert!(plan_program(&vec![CODE, beyond, CODE], 0x2248).is_none());
    assert!(plan_program(&vec![CODE, DATA, CODE], 0x2248).is_some());
}

#[test]
fn access_becomes_attributes() {
    assert_eq!(access_flags(false, false, false), VmFlags { bits: 17 });
    assert_eq!(access_flags(true, false, false), VmFlags { bits: 19 });
    assert_eq!(access_flags(false, true, false), VmFlags { bits: 21 });
    assert_eq!(access_flags(false, false, true), VmFlags { bits: 25 });
}

#[test]
fn programs_start_in_user_mode_on_their_stack() {
    let ctx = user_thread(0x10078);
    assert_eq!(ctx.pc(), 0x10078);
    assert_eq!(ctx.sp(), 1 << 38);
    assert!(!ctx.supervisor);
    assert!(ctx.interrupt);
    for n in 3..=31 {
        assert_eq!(ctx.x(n), 0);
    }
    assert_eq!(
        user_stack(0x8031_0000),
        Mapping {
            range: PageRange { start: (1 << 26) - 2, end: 1 << 26 },
            ppn: 0x80310,
            flags: VmFlags { bits: 23 },
        }
    );
    assert_eq!(satp_of(0x80400), (8 << 60) | 0x80400);
}

const HEAD: ElfHead = ElfHead {
    wide: true,
    executable: true,
    riscv: true,
    entry: 0x10078,
    ph_offset: 64,
    ph_entry_size: 56,
    ph_count: 3,
};

const LEN: usize = 0x2248;

fn put(image: &mut [u8], at: usize, bytes: &[u8]) {
    image[at..at + bytes.len()].copy_from_slice(bytes);
}

/// The program header of a segment of a kind, 1 being one to load.
fn put_header(image: &mut [u8], at: usize, kind: u32, segment: Segment) {
    let access = (segment.execute as u32) + 2 * (segment.write as u32) + 4 * (segment.read as u32);
    put(image, at, &kind.to_le_bytes());
    put(image, at + 4, &access.to_le_bytes());
    put(image, at + 8, &segment.offset.to_le_bytes());
    put(image, at + 16, &segment.vaddr.to_le_bytes());
    put(image, at + 32, &segment.file_size.to_le_bytes());
    put(image, at + 40, &segment.mem_size.to_le_bytes());
}

/// A RISC-V executable with a segment of code, a note and a segment of data.
fn image() -> Vec<u8> {
    let mut image = vec![0; LEN];
    put(&mut image, 0, &[0x7f, 0x45, 0x4c, 0x46, 2, 1, 1]);
    put(&mut image, 16, &2u16.to_le_bytes());
    put(&mut image, 18, &0xf3u16.to_le_bytes());
    put(&mut image, 24, &HEAD.entry.to_le_bytes());
    put(&mut image, 32, &HEAD.ph_offset.to_le_bytes());
    put(&mut image, 54, &HEAD.ph_entry_size.to_le_bytes());
    put(&mut image, 56, &HEAD.ph_count.to_le_bytes());
    put_header(&mut image, 64, 1, CODE);
    put_header(&mut image, 120, 4, DATA);
    put_header(&mut image, 176, 1, DATA);
    image
}

fn changed(at: usize, bytes: &[u8]) -> Vec<u8> {
    let mut image = image();
    put(&mut image, at, bytes);
    image
}

fn error_of(image: &[u8]) -> Option<LoadError> {
    load_program(image).err()
}

#[test]
fn images_are_read() {
    let (head, headers) = read_image(&image()).unwrap();
    assert_eq!(head, HEAD);
    assert_eq!(
        headers,
        vec![
            ProgramHeader { load: true, segment: CODE },
            ProgramHeader { load: false, segment: DATA },
            ProgramHeader { load: true, segment: DATA },
        ]
    );
    assert_eq!(segments_to_load(&headers), vec![CODE, DATA]);
}

#[test]
fn images_are_read_wherever_they_lie() {
    for shift in 0..8 {
        let mut memory = vec![0xff; shift];
        memory.extend(image());
        let (head, headers) = read_image(&memory[shift..]).unwrap();
        assert_eq!(head, HEAD);
        assert_eq!(segments_to_load(&headers), vec![CODE, DATA]);
    }
}

#[test]
fn programs_come_from_their_images() {
    let program = load_program(&image()).ok().unwrap();
    assert_eq!(program.entry, 0x10078);
    assert_eq!(program.plan.segments, plan_program(&vec![CODE, DATA], LEN).unwrap().segments);
    assert_eq!(program.plan.heap_bottom, 0x15000);
}

#[test]
fn images_that_cannot_be_loaded() {
    assert_eq!(error_of(&[]), Some(LoadError::NotElf));
    assert_eq!(error_of(&image()[..63]), Some(LoadError::NotElf));
    assert_eq!(error_of(&changed(0, &[0x7e])), Some(LoadError::NotElf));
    assert_eq!(error_of(&changed(4, &[0])), Some(LoadError::NotElf));
    assert_eq!(error_of(&changed(4, &[1])), Some(LoadError::NotRunnable));
    assert_eq!(error_of(&changed(16, &[3])), Some(LoadError::NotRunnable));
    assert_eq!(error_of(&changed(18, &[0x3e])), Some(LoadError::NotRunnable));
    assert_eq!(error_of(&changed(32, &[65])), Some(LoadError::HeadersOutside));
    assert_eq!(error_of(&changed(32, &[0xff; 8])), Some(LoadError::HeadersOutside));
    assert_eq!(error_of(&changed(54, &[48])), Some(LoadError::HeadersOutside));
    assert_eq!(error_of(&changed(54, &[57])), Some(LoadError::HeadersOutside));
    assert_eq!(error_of(&changed(56, &[0xff, 0xff])), Some(LoadError::HeadersOutside));
    assert_eq!(error_of(&image()[..LEN - 1]), Some(LoadError::Unloadable));
    assert_eq!(error_of(&image()), None);
}

#[test]
fn images_without_program_headers() {
    for empty in [changed(56, &[0]), changed(54, &[0]), changed(32, &[0])] {
        let (_, headers) = read_image(&empty).unwrap();
        assert!(headers.is_empty());
        assert!(load_program(&empty).ok().unwrap().plan.segments.is_empty());
    }
    let mut single = changed(54, &[57]);
    put(&mut single, 56, &[1]);
    assert_eq!(segments_to_load(&read_image(&single).unwrap().1), vec![CODE]);
}

#[test]
fn heads_are_checked() {
    assert_eq!(check_head(None, LEN), Err(LoadError::NotElf));
    assert_eq!(check_head(Some(HEAD), LEN), Ok(HEAD));
    assert_eq!(check_head(Some(HEAD), 232), Ok(HEAD));
    assert_eq!(check_head(Some(HEAD), 231), Err(LoadError::HeadersOutside));
    let narrow = ElfHead { wide: false, ..HEAD };
    assert_eq!(check_head(Some(narrow), LEN), Err(LoadError::NotRunnable));
    let last = ElfHead { ph_offset: u64::MAX - 7, ..HEAD };
    assert_eq!(check_head(Some(last), usize::MAX), Err(LoadError::HeadersOutside));
}

#[test]
fn programs_follow_from_head_and_headers() {
    let headers = vec![
        ProgramHeader { load: true, segment: DATA },
        ProgramHeader { load: false, segment: CODE },
    ];
    let program = program_from(Some(HEAD), &headers, LEN).ok().unwrap();
    assert_eq!(program.entry, 0x10078);
    assert_eq!(program.plan.segments.len(), 1);
    assert_eq!(program.plan.segments[0].range, PageRange { start: 0x12, end: 0x15 });
    assert_eq!(program_from(None, &headers, LEN).err(), Some(LoadError::NotElf));
    assert_eq!(program_from(Some(HEAD), &headers, LEN - 1).err(), Some(LoadError::Unloadable));
}

#[test]
fn programs_keep_the_order_of_their_images() {
    let first = image();
    let foreign = changed(18, &[0x3e]);
    let second = changed(24, &[0x80]);
    let images: Vec<&[u8]> = vec![&foreign, &first, &foreign, &second];
    let loaded = load_programs(&images).ok().unwrap();
    let places: Vec<(usize, u64)> = loaded.iter().map(|l| (l.image, l.program.entry)).collect();
    assert_eq!(places, vec![(1, 0x10078), (3, 0x10080)]);

    let broken = changed(0, &[0]);
    let images: Vec<&[u8]> = vec![&foreign, &first, &broken, &second, &broken];
    assert_eq!(load_programs(&images).err(), Some(2));
    let misplaced = changed(32, &[65]);
    assert_eq!(load_programs(&vec![&misplaced[..]]).err(), Some(0));
    assert!(load_programs(&Vec::new()).ok().unwrap().is_empty());
}
