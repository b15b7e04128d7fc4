//! Traps, calls and the list of processes.

use ch4_kernel::context::{answer, answer4, scheduling_thread};
use ch4_kernel::process::{BrkMove, HeapChange, Process, ProcessList};
use ch4_kernel::schedule::{Service, SyscallResult, Trap, Turn, SYSCALL_EXIT};
use ch4_kernel::sv39::PageRange;
use tg_kernel_context::LocalContext;
use tg_syscall::SyscallId;

fn calling(pc: usize, id: usize, args: [usize; 6]) -> LocalContext {
    let mut ctx = LocalContext::user(pc);
    for (n, value) in args.into_iter().enumerate() {
        *ctx.a_mut(n) = value;
    }
    *ctx.a_mut(6) = 66;
    *ctx.a_mut(7) = id;
    *ctx.sp_mut() = 0x7000;
    ctx
}

fn list_of(contexts: Vec<LocalContext>) -> ProcessList<usize> {
    let mut list = ProcessList::new();
    for (n, ctx) in contexts.into_iter().enumerate() {
        list.processes.push(Process::new(ctx, 100 + n, n, 0x10_0000));
    }
    list
}

fn names(list: &ProcessList<usize>) -> Vec<usize> {
    list.processes.iter().map(|p| p.address_space).collect()
}

fn arguments(list: &ProcessList<usize>) -> Vec<usize> {
    (0..8).map(|n| list.processes[0].context.a(n)).collect()
}

#[test]
fn scheduling_thread_starts_on_its_stack() {
    let mut ctx = scheduling_thread(0x8020_1234);
    assert_eq!(ctx.pc(), 0x8020_1234);
    assert_eq!(ctx.sp(), 1 << 38);
    assert!(ctx.supervisor);
    assert!(!ctx.interrupt);
    for n in 1..=31 {
        if n != 2 {
            assert_eq!(ctx.x(n), 0);
        }
    }
    *ctx.pc_mut() = 0;
    assert_eq!(ctx.sp(), 1 << 38);
}

#[test]
fn answers_touch_only_their_registers() {
    let mut ctx = calling(0x1000, 7, [1, 2, 3, 4, 5, 6]);
    answer(&mut ctx, 9);
    assert_eq!((0..8).map(|n| ctx.a(n)).collect::<Vec<usize>>(), vec![9, 2, 3, 4, 5, 6, 66, 7]);
    assert_eq!((ctx.pc(), ctx.sp()), (0x1004, 0x7000));
    answer4(&mut ctx, (10, 11, 12, 13));
    assert_eq!((0..8).map(|n| ctx.a(n)).collect::<Vec<usize>>(), vec![10, 11, 12, 13, 5, 6, 66, 7]);
    assert_eq!((ctx.pc(), ctx.sp()), (0x1008, 0x7000));
    let mut last = LocalContext::user(usize::MAX - 1);
    answer(&mut last, 0);
    assert_eq!(last.pc(), 2);
    assert!(!last.supervisor);
    assert!(last.interrupt);
}

#[test]
fn turns_end_with_the_last_process() {
    let mut list = list_of(vec![LocalContext::user(0)]);
    assert_eq!(list.next_turn(), Turn::Run);
    assert!(matches!(list.trapped(Trap::Other), Service::Ended));
    assert_eq!(list.next_turn(), Turn::Shutdown);
}

#[test]
fn interrupts_leave_the_process_alone() {
    let mut list = list_of(vec![calling(0x1000, 93, [1, 2, 3, 4, 5, 6]), LocalContext::user(0)]);
    assert!(matches!(list.trapped(Trap::SupervisorExternal), Service::ExternalInterrupt));
    assert_eq!(names(&list), vec![0, 1]);
    assert_eq!(list.processes[0].context.pc(), 0x1000);
    assert_eq!(arguments(&list), vec![1, 2, 3, 4, 5, 6, 66, 93]);
}

#[test]
fn time_slices_go_round() {
    let mut list = list_of(vec![LocalContext::user(0), LocalContext::user(1), LocalContext::user(2)]);
    let mut seen = Vec::new();
    for _ in 0..6 {
        seen.push(list.processes[0].address_space);
        assert!(matches!(list.trapped(Trap::SupervisorTimer), Service::Switched));
    }
    assert_eq!(seen, vec![0, 1, 2, 0, 1, 2]);
    assert_eq!(names(&list), vec![0, 1, 2]);
    assert_eq!(list.processes[2].context.pc(), 2);
}

#[test]
fn unknown_traps_end_only_the_first_process() {
    let mut list = list_of(vec![LocalContext::user(0), LocalContext::user(1), LocalContext::user(2)]);
    assert!(matches!(list.trapped(Trap::Other), Service::Ended));
    assert_eq!(names(&list), vec![1, 2]);
}

#[test]
fn device_calls_are_told_apart_and_not_counted() {
    let mut list = list_of(vec![calling(0x1000, 0x1000_0001, [0x1ff, 0, 0, 0, 0, 0])]);
    assert!(matches!(list.trapped(Trap::UserEnvCall), Service::FramebufferInfo));
    *list.processes[0].context.a_mut(7) = 0x1000_0002;
    assert!(matches!(list.trapped(Trap::UserEnvCall), Service::FramebufferFlush));
    *list.processes[0].context.a_mut(7) = 0x1000_0003;
    assert!(matches!(list.trapped(Trap::UserEnvCall), Service::SetInputMode(0xff)));
    for id in [0x1000_0001, 0x1000_0002, 0x1000_0003] {
        assert_eq!(list.processes[0].syscall_count(id), 0);
    }
}

#[test]
fn framebuffer_answers() {
    let mut list = list_of(vec![calling(0x1000, 0x1000_0001, [1, 2, 3, 4, 5, 6])]);
    list.framebuffer_info_answered(Some((0x1000_0000, 4096, 32, 32)));
    assert_eq!(arguments(&list), vec![0x1000_0000, 4096, 32, 32, 5, 6, 66, 0x1000_0001]);
    assert_eq!(list.processes[0].context.pc(), 0x1004);
    list.framebuffer_info_answered(None);
    assert_eq!(arguments(&list), vec![usize::MAX, 0, 0, 0, 5, 6, 66, 0x1000_0001]);
    list.device_call_answered(-1);
    assert_eq!(list.processes[0].context.a(0), usize::MAX);
    list.device_call_answered(0);
    assert_eq!(list.processes[0].context.a(0), 0);
    assert_eq!(list.processes[0].context.pc(), 0x1010);
}

#[test]
fn system_calls_are_counted_and_answered() {
    let mut list = list_of(vec![calling(0x1000, 64, [1, 2, 3, 4, 5, 6]), LocalContext::user(0)]);
    for round in 1..4usize {
        match list.trapped(Trap::UserEnvCall) {
            Service::Syscall { id, args } => {
                assert_eq!(id, 64);
                assert_eq!(args[1..], [2, 3, 4, 5, 6]);
            }
            _ => panic!("a system call was expected"),
        }
        assert_eq!(list.processes[0].syscall_count(64), round);
        assert_eq!(list.processes[0].syscall_count(63), 0);
        list.syscall_answered(64, SyscallResult::Done(-2));
        assert_eq!(list.processes[0].context.a(0), usize::MAX - 1);
        assert_eq!(list.processes[0].context.pc(), 0x1000 + 4 * round);
    }
    assert_eq!(list.processes[1].syscall_count(64), 0);
    assert_eq!(names(&list), vec![0, 1]);
}

#[test]
fn exit_and_unknown_calls_end_the_process() {
    assert_eq!(SYSCALL_EXIT, SyscallId::EXIT.0);
    let mut list = list_of(vec![LocalContext::user(0), LocalContext::user(1), LocalContext::user(2)]);
    list.syscall_answered(SYSCALL_EXIT, SyscallResult::Done(0));
    assert_eq!(names(&list), vec![1, 2]);
    list.syscall_answered(64, SyscallResult::Unsupported);
    assert_eq!(names(&list), vec![2]);
    list.syscall_answered(64, SyscallResult::Done(5));
    assert_eq!(names(&list), vec![2]);
}

#[test]
fn counts_stay_at_the_largest_number() {
    let mut list = list_of(vec![LocalContext::user(0)]);
    list.processes[0].syscall_counts.insert(1, usize::MAX - 1);
    list.processes[0].record_syscall(1);
    assert_eq!(list.processes[0].syscall_count(1), usize::MAX);
    list.processes[0].record_syscall(1);
    assert_eq!(list.processes[0].syscall_count(1), usize::MAX);
}

#[test]
fn heap_moves_take_whole_pages() {
    let mut process = Process::new(LocalContext::user(0), 0, 0usize, 0x10_0000);
    let grow = PageRange { start: 0x100, end: 0x102 };
    assert_eq!(
        process.change_program_brk(0x1001),
        Some(BrkMove { old_brk: 0x10_0000, change: HeapChange::Grow(grow) })
    );
    assert_eq!(
        process.change_program_brk(0xfff),
        Some(BrkMove { old_brk: 0x10_1001, change: HeapChange::Keep })
    );
    assert_eq!(
        process.change_program_brk(-0x2000),
        Some(BrkMove { old_brk: 0x10_2000, change: HeapChange::Shrink(grow) })
    );
    assert_eq!(process.change_program_brk(-1), None);
    assert_eq!(process.program_brk, 0x10_0000);
    assert_eq!(
        process.change_program_brk(0),
        Some(BrkMove { old_brk: 0x10_0000, change: HeapChange::Keep })
    );
    process.program_brk = usize::MAX;
    assert_eq!(process.change_program_brk(1), None);
}
