//! System calls.

use ch4_kernel::flags::VmFlags;
use ch4_kernel::gpu::{no_framebuffer, Framebuffer};
use ch4_kernel::input::Input;
use ch4_kernel::memory::{FreshPages, MmapReply, MunmapReply};
use ch4_kernel::process::{HeapChange, Process, ProcessList};
use ch4_kernel::screen::{framebuffer_info, user_data_flags, FramebufferReply};
use ch4_kernel::space::Mapping;
use ch4_kernel::sv39::PageRange;
use ch4_kernel::syscall::{
    ClockStep, ReadStep, SbrkReply, SyscallContext, TimeSpec, TraceStep, WriteStep, CLOCK_MONOTONIC,
    STDDEBUG, STDIN, STDOUT,
};
use ch4_kernel::word::{low_byte, to_signed, to_unsigned};
use tg_kernel_context::LocalContext;

const USER_WRITABLE: VmFlags = VmFlags { bits: 21 };
const USER_READABLE: VmFlags = VmFlags { bits: 19 };

fn one_process() -> ProcessList<()> {
    let mut list = ProcessList::new();
    list.processes.push(Process::new(LocalContext::user(0), 0, (), 0x10_0000));
    list
}

fn pages(start: usize, end: usize) -> PageRange {
    PageRange { start, end }
}

fn granted(start: usize, end: usize, bits: usize) -> MmapReply {
    MmapReply { ret: 0, map: Some(FreshPages { range: pages(start, end), flags: VmFlags { bits } }) }
}

const REFUSED: MmapReply = MmapReply { ret: -1, map: None };
const KEPT: MunmapReply = MunmapReply { ret: -1, range: None };

#[test]
fn numbers_agree_with_tg_syscall() {
    assert_eq!(STDIN, tg_syscall::STDIN);
    assert_eq!(STDOUT, tg_syscall::STDOUT);
    assert_eq!(STDDEBUG, tg_syscall::STDDEBUG);
    assert_eq!(CLOCK_MONOTONIC, tg_syscall::ClockId::CLOCK_MONOTONIC.0);
}

#[test]
fn words_change_their_sign() {
    assert_eq!(to_unsigned(-1), usize::MAX);
    assert_eq!(to_unsigned(isize::MIN), 1 << 63);
    assert_eq!(to_unsigned(5), 5);
    assert_eq!(to_signed(usize::MAX), -1);
    assert_eq!(to_signed(1 << 63), isize::MIN);
    assert_eq!(to_signed(5), 5);
    assert_eq!(low_byte(0x1234), 0x34);
}

#[test]
fn reading_nothing_or_from_elsewhere() {
    let mut input = Input::new();
    input.push_input_key(97);
    assert_eq!(SyscallContext.read(&mut input, STDIN, 0), ReadStep::Return(0));
    assert_eq!(SyscallContext.read(&mut input, 7, 0), ReadStep::Return(0));
    assert_eq!(SyscallContext.read(&mut input, STDOUT, 1), ReadStep::Return(-1));
    assert_eq!(input.pop_input_key(), Some(97));
}

#[test]
fn polling_prefers_the_waiting_key() {
    let mut input = Input::new();
    assert_eq!(SyscallContext.read(&mut input, STDIN, 1), ReadStep::Poll);
    input.push_input_key(97);
    assert_eq!(
        SyscallContext.read(&mut input, STDIN, 5),
        ReadStep::Deliver { byte: 97, need: USER_WRITABLE }
    );
    assert_eq!(SyscallContext.read(&mut input, STDIN, 1), ReadStep::Poll);
    assert_eq!(
        SyscallContext.read_polled(Some(98)),
        ReadStep::Deliver { byte: 98, need: USER_WRITABLE }
    );
    assert_eq!(SyscallContext.read_polled(None), ReadStep::Return(-2));
    assert_eq!(SyscallContext.read_delivered(true), 1);
    assert_eq!(SyscallContext.read_delivered(false), -1);
}

#[test]
fn interrupt_mode_does_not_poll() {
    let mut input = Input::new();
    input.set_input_mode(1);
    assert_eq!(SyscallContext.read(&mut input, STDIN, 1), ReadStep::Return(-2));
    input.push_input_key(97);
    assert_eq!(
        SyscallContext.read(&mut input, STDIN, 1),
        ReadStep::Deliver { byte: 97, need: USER_WRITABLE }
    );
}

#[test]
fn writes_go_to_output_and_diagnostics() {
    let print = WriteStep::Print { need: VmFlags { bits: 3 } };
    assert_eq!(SyscallContext.write(STDOUT), print);
    assert_eq!(SyscallContext.write(STDDEBUG), print);
    assert_eq!(SyscallContext.write(STDIN), WriteStep::Return(-1));
    assert_eq!(SyscallContext.write(3), WriteStep::Return(-1));
    assert_eq!(SyscallContext.write_printed(true, 12), 12);
    assert_eq!(SyscallContext.write_printed(false, 12), -1);
}

#[test]
fn time_of_the_clock() {
    assert_eq!(SyscallContext.clock_gettime(1), ClockStep::Store { need: VmFlags { bits: 5 } });
    assert_eq!(SyscallContext.clock_gettime(0), ClockStep::Return(-1));
    assert_eq!(SyscallContext.time_at(0), TimeSpec { tv_sec: 0, tv_nsec: 0 });
    assert_eq!(SyscallContext.time_at(12_500_000), TimeSpec { tv_sec: 1, tv_nsec: 0 });
    assert_eq!(SyscallContext.time_at(12_499_999), TimeSpec { tv_sec: 0, tv_nsec: 999_999_920 });
    assert_eq!(SyscallContext.time_at(31_250_001), TimeSpec { tv_sec: 2, tv_nsec: 500_000_080 });
    assert_eq!(SyscallContext.clock_stored(true), 0);
    assert_eq!(SyscallContext.clock_stored(false), -1);
}

#[test]
fn trace_requests() {
    let mut list = one_process();
    list.processes[0].record_syscall(64);
    list.processes[0].record_syscall(64);
    assert_eq!(SyscallContext.trace(&list, 0, 0, 0x1000, 0), TraceStep::Peek { need: USER_READABLE });
    assert_eq!(
        SyscallContext.trace(&list, 0, 1, 0x1000, 0x1ff),
        TraceStep::Poke { byte: 0xff, need: USER_WRITABLE }
    );
    assert_eq!(SyscallContext.trace(&list, 0, 2, 64, 0), TraceStep::Return(2));
    assert_eq!(SyscallContext.trace(&list, 0, 2, 65, 0), TraceStep::Return(0));
    assert_eq!(SyscallContext.trace(&list, 0, 3, 64, 0), TraceStep::Return(-1));
    assert_eq!(SyscallContext.trace(&list, 1, 2, 64, 0), TraceStep::Return(-1));
    assert_eq!(SyscallContext.trace_peeked(Some(200)), 200);
    assert_eq!(SyscallContext.trace_peeked(None), -1);
    assert_eq!(SyscallContext.trace_poked(true), 0);
    assert_eq!(SyscallContext.trace_poked(false), -1);
}

#[test]
fn sbrk_answers_the_old_end() {
    let mut list = one_process();
    assert_eq!(
        SyscallContext.sbrk(&mut list, 0, 4096),
        SbrkReply { ret: 0x10_0000, change: HeapChange::Grow(pages(0x100, 0x101)) }
    );
    assert_eq!(
        SyscallContext.sbrk(&mut list, 0, -4096),
        SbrkReply { ret: 0x10_1000, change: HeapChange::Shrink(pages(0x100, 0x101)) }
    );
    let failed = SbrkReply { ret: -1, change: HeapChange::Keep };
    assert_eq!(SyscallContext.sbrk(&mut list, 0, -1), failed);
    assert_eq!(SyscallContext.sbrk(&mut list, 1, 0), failed);
    assert_eq!(list.processes[0].program_brk, 0x10_0000);
}

#[test]
fn exit_and_yield_answer_zero() {
    assert_eq!(SyscallContext.exit(3), 0);
    assert_eq!(SyscallContext.sched_yield(), 0);
}

#[test]
fn mmap_grants_whole_pages() {
    let areas = vec![pages(0x10, 0x20)];
    let call = SyscallContext;
    assert_eq!(call.mmap(Some(&areas), 0x2000, 100, 3), granted(2, 3, 1 + 2 + 4 + 16));
    assert_eq!(call.mmap(Some(&areas), 0x2000, 4097, 1), granted(2, 4, 1 + 2 + 16));
    assert_eq!(call.mmap(Some(&areas), 0x2000, 4096, 7), granted(2, 3, 1 + 2 + 4 + 8 + 16));
    assert_eq!(call.mmap(Some(&areas), 0x2000, 4096, 4), granted(2, 3, 1 + 8 + 16));
    assert_eq!(call.mmap(Some(&areas), 0xf000, 4096, 2), granted(0xf, 0x10, 1 + 4 + 16));
    assert_eq!(call.mmap(Some(&areas), 0x20000, 4096, 2), granted(0x20, 0x21, 1 + 4 + 16));
}

#[test]
fn mmap_refuses() {
    let areas = vec![pages(0x10, 0x20)];
    let call = SyscallContext;
    assert_eq!(call.mmap(Some(&areas), 0x2001, 100, 3), REFUSED);
    assert_eq!(call.mmap(Some(&areas), 0x2000, 100, 0), REFUSED);
    assert_eq!(call.mmap(Some(&areas), 0x2000, 100, 8), REFUSED);
    assert_eq!(call.mmap(Some(&areas), 0x2000, 100, -1), REFUSED);
    assert_eq!(call.mmap(Some(&areas), 0x2000, usize::MAX, 3), REFUSED);
    assert_eq!(call.mmap(Some(&areas), 0xf000, 4097, 3), REFUSED);
    assert_eq!(call.mmap(Some(&areas), 0x1f000, 8192, 3), REFUSED);
    assert_eq!(call.mmap(None, 0x2000, 100, 3), REFUSED);
}

#[test]
fn mmap_of_nothing() {
    let areas = vec![pages(0x10, 0x20)];
    let nothing = MmapReply { ret: 0, map: None };
    assert_eq!(SyscallContext.mmap(Some(&areas), 0x2000, 0, 3), nothing);
    assert_eq!(SyscallContext.mmap(Some(&areas), 0x10000, 0, 3), nothing);
    assert_eq!(SyscallContext.mmap(Some(&areas), 0x11000, 0, 3), REFUSED);
}

#[test]
fn requests_to_the_end_of_the_addresses() {
    let areas = vec![pages(1, 8)];
    let call = SyscallContext;
    assert_eq!(call.mmap(Some(&areas), 0x9000, (1 << 39) - 0x9000, 3), granted(9, 0, 23));
    assert_eq!(
        call.munmap(Some(&areas), 0x5000, (1 << 39) - 0x5000),
        MunmapReply { ret: 0, range: Some(pages(5, 0)) }
    );
    assert_eq!(call.mmap(Some(&areas), 0, 1 << 39, 3), MmapReply { ret: 0, map: None });
    assert_eq!(call.mmap(Some(&areas), 0, (1 << 39) + 4096, 3), granted(0, 1, 23));
    assert_eq!(call.mmap(Some(&areas), (1 << 39) - 4096, 4095, 3), granted(0x7ff_ffff, 0x800_0000, 23));
}

#[test]
fn munmap_needs_every_page() {
    let areas = vec![pages(0x10, 0x12), pages(0x13, 0x14), pages(0x12, 0x13)];
    let call = SyscallContext;
    assert_eq!(
        call.munmap(Some(&areas), 0x10000, 0x4000),
        MunmapReply { ret: 0, range: Some(pages(0x10, 0x14)) }
    );
    assert_eq!(
        call.munmap(Some(&areas), 0x11000, 1),
        MunmapReply { ret: 0, range: Some(pages(0x11, 0x12)) }
    );
    assert_eq!(call.munmap(Some(&areas), 0x10000, 0x4001), KEPT);
    assert_eq!(call.munmap(Some(&areas), 0xf000, 0x2000), KEPT);
    assert_eq!(call.munmap(Some(&areas), 0x10001, 1), KEPT);
    assert_eq!(call.munmap(Some(&areas), 0x10000, usize::MAX), KEPT);
    assert_eq!(call.munmap(None, 0x10000, 1), KEPT);
    assert_eq!(call.munmap(None, 0x10000, 0), KEPT);
    assert_eq!(call.munmap(Some(&areas), 0x5000, 0), MunmapReply { ret: 0, range: None });
}

#[test]
fn mapped_memory_is_taken_until_it_is_unmapped() {
    let mut areas = vec![pages(0x10, 0x20)];
    let call = SyscallContext;
    assert_eq!(call.mmap(Some(&areas), 0x2000, 8192, 3), granted(2, 4, 23));
    areas.push(pages(2, 4));
    assert_eq!(call.mmap(Some(&areas), 0x2000, 8192, 3), REFUSED);
    assert_eq!(call.mmap(Some(&areas), 0x3000, 1, 1), REFUSED);
    assert_eq!(
        call.munmap(Some(&areas), 0x2000, 8192),
        MunmapReply { ret: 0, range: Some(pages(2, 4)) }
    );
    areas.pop();
    assert_eq!(call.munmap(Some(&areas), 0x2000, 8192), KEPT);
    assert_eq!(call.mmap(Some(&areas), 0x2000, 8192, 3), granted(2, 4, 23));
}

#[test]
fn framebuffer_is_mapped_once() {
    let mut list = one_process();
    let process = &mut list.processes[0];
    let fb = Framebuffer { ptr: 0x8100_0000, len: 4_096_000, width: 1280, height: 800 };
    let info = Some((0x1000_0000, 4_096_000, 1280, 800));
    assert_eq!(framebuffer_info(process, &no_framebuffer()), FramebufferReply { info: None, map: None });
    assert!(!process.fb_mapped);
    assert_eq!(
        framebuffer_info(process, &fb),
        FramebufferReply {
            info,
            map: Some(Mapping {
                range: pages(0x10000, 0x103e8),
                ppn: 0x81000,
                flags: VmFlags { bits: 23 },
            }),
        }
    );
    assert_eq!(framebuffer_info(process, &fb), FramebufferReply { info, map: None });
    assert_eq!(framebuffer_info(process, &no_framebuffer()), FramebufferReply { info: None, map: None });
    assert_eq!(framebuffer_info(process, &fb), FramebufferReply { info, map: None });
    assert_eq!(user_data_flags(), VmFlags { bits: 23 });
}

#[test]
fn calls_have_the_access_that_was_asked_for() {
    let none: Vec<PageRange> = Vec::new();
    let list = one_process();
    let TraceStep::Peek { need: peek } = SyscallContext.trace(&list, 0, 0, 0, 0) else {
        panic!("a peek was expected");
    };
    let TraceStep::Poke { need: poke, .. } = SyscallContext.trace(&list, 0, 1, 0, 0) else {
        panic!("a poke was expected");
    };
    let WriteStep::Print { need: print } = SyscallContext.write(STDOUT) else {
        panic!("a print was expected");
    };
    let ClockStep::Store { need: store } = SyscallContext.clock_gettime(CLOCK_MONOTONIC) else {
        panic!("a store was expected");
    };
    for prot in 1..8 {
        let have = SyscallContext.mmap(Some(&none), 0x2000, 1, prot).map.unwrap().flags.bits;
        for need in [peek, print] {
            assert_eq!(have & need.bits == need.bits, prot & 1 != 0);
        }
        for need in [poke, store] {
            assert_eq!(have & need.bits == need.bits, prot & 2 != 0);
        }
    }
}

#[test]
fn granted_areas_stay_apart() {
    let mut areas: Vec<PageRange> = Vec::new();
    for (addr, len) in [(0x5000, 0x3000), (0x1000, 0x4000), (0x2000, 1), (0x8000, 0x1001), (0x7fff, 9)] {
        if let Some(fresh) = SyscallContext.mmap(Some(&areas), addr, len, 1).map {
            areas.push(fresh.range);
        }
    }
    assert_eq!(areas, vec![pages(5, 8), pages(1, 5), pages(8, 10)]);
}

#[test]
fn time_never_runs_backward() {
    let mut before = SyscallContext.time_at(0);
    for ticks in [1, 2, 12_499_999, 12_500_000, 12_500_001, usize::MAX / 10_000] {
        let time = SyscallContext.time_at(ticks);
        assert!((before.tv_sec, before.tv_nsec) < (time.tv_sec, time.tv_nsec));
        assert!(time.tv_nsec < 1_000_000_000);
        before = time;
    }
}
