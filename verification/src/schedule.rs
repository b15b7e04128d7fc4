//! Scheduling: what to do when a process traps, and how it resumes or ends.
//!
//! The first process of the list runs until it traps. [`ProcessList::trapped`] says which service
//! the trap asks for; the answer goes back through one of the `..._answered` methods. A process
//! that ends leaves the list, one whose time slice is over goes to its end, and when the list is
//! empty the machine is shut down.

use crate::context::{self, answer, answer4};
use crate::process::{Process, ProcessList};
use crate::word::{self, low_byte, to_unsigned};
use tg_kernel_context::LocalContext;
use vstd::prelude::*;

verus! {

/// The call for the framebuffer's description.
pub const SYSCALL_FRAMEBUFFER: usize = 0x1000_0001;

/// The call to show the framebuffer.
pub const SYSCALL_FRAMEBUFFER_FLUSH: usize = 0x1000_0002;

/// The call to change the input mode.
pub const SYSCALL_SET_INPUT_MODE: usize = 0x1000_0003;

/// The call that ends a process.
pub const SYSCALL_EXIT: usize = 93;

/// Why a process stopped running.
#[derive(Clone, Copy, PartialEq, Eq, Structural, Debug)]
pub enum Trap {
    /// The time slice is over.
    SupervisorTimer,
    /// A device interrupts.
    SupervisorExternal,
    /// The process makes a call.
    UserEnvCall,
    /// Anything else, which no process survives.
    Other,
}

/// What a trap asks for.
#[derive(Clone, Copy, Debug)]
pub enum Service {
    /// Nothing: the process has ended.
    Ended,
    /// Nothing: the process waits for its next time slice.
    Switched,
    /// The device interrupt is to be handled.
    ExternalInterrupt,
    /// The framebuffer's description.
    FramebufferInfo,
    /// The framebuffer is to be shown.
    FramebufferFlush,
    /// A change of the input mode.
    SetInputMode(u8),
    /// A system call.
    Syscall {
        /// Its number.
        id: usize,
        /// Its arguments.
        args: [usize; 6],
    },
}

/// How a system call went.
#[derive(Clone, Copy, PartialEq, Eq, Structural, Debug)]
pub enum SyscallResult {
    /// It gave a number.
    Done(isize),
    /// There is no such call.
    Unsupported,
}

/// What the scheduler does next.
#[derive(Clone, Copy, PartialEq, Eq, Structural, Debug)]
pub enum Turn {
    /// Run the first process.
    Run,
    /// Shut the machine down.
    Shutdown,
}

/// An argument register.
pub open spec fn argument(ctx: LocalContext, n: int) -> usize {
    context::context_registers(ctx)[n + 10]
}

/// Whether a call is one of the three that are handled apart from the system calls.
pub open spec fn is_device_call(id: usize) -> bool {
    id == SYSCALL_FRAMEBUFFER || id == SYSCALL_FRAMEBUFFER_FLUSH || id == SYSCALL_SET_INPUT_MODE
}

/// The first process resumes behind its call with the registers of `answers` replaced; it is
/// otherwise the same, and so are the processes behind it.
pub open spec fn first_resumed<S>(
    before: Seq<Process<S>>,
    after: Seq<Process<S>>,
    answers: Map<int, usize>,
) -> bool {
    &&& after.len() == before.len()
    &&& forall|i: int| 0 < i < after.len() ==> #[trigger] after[i] == before[i]
    &&& after[0].same_but_context(before[0])
    &&& context::resumed(before[0].context, after[0].context, answers)
}

/// A step of the scheduler within a time slice: at most the first process changes, or it leaves.
pub open spec fn stays_or_leaves<S>(before: Seq<Process<S>>, after: Seq<Process<S>>) -> bool {
    ||| before.len() > 0 && after == before.drop_first()
    ||| after.len() == before.len() && forall|i: int|
        0 < i < after.len() ==> #[trigger] after[i] == before[i]
}

/// The list at the end of a time slice: the first process has gone to the end.
pub open spec fn rotated<S>(list: Seq<Process<S>>) -> Seq<Process<S>> {
    list.drop_first().push(list.first())
}

/// The list after `n` time slices in which nothing else happened.
pub open spec fn rotated_by<S>(list: Seq<Process<S>>, n: int) -> Seq<Process<S>>
    decreases n,
{
    if n <= 0 {
        list
    } else {
        rotated(rotated_by(list, n - 1))
    }
}

impl<S> ProcessList<S> {
    /// Goes on with the first process, or shuts down where none is left.
    pub fn next_turn(&self) -> (turn: Turn)
        ensures
            turn == if self.processes@.len() > 0 {
                Turn::Run
            } else {
                Turn::Shutdown
            },
    {
        if self.processes.is_empty() {
            Turn::Shutdown
        } else {
            Turn::Run
        }
    }

    /// Takes note of a trap of the first process, and says which service it asks for.
    ///
    /// Calls are told apart by argument register 7. A system call is counted, the three device
    /// calls are not. At the end of its time slice the process goes to the end of the list. A
    /// process that traps for any other reason than these and a device interrupt ends.
    pub fn trapped(&mut self, trap: Trap) -> (service: Service)
        requires
            old(self).processes@.len() > 0,
        ensures
            trap is SupervisorTimer ==> service is Switched && final(self).processes@ == rotated(
                old(self).processes@,
            ),
            !(trap is SupervisorTimer) ==> stays_or_leaves(
                old(self).processes@,
                final(self).processes@,
            ),
            trap is SupervisorExternal ==> service is ExternalInterrupt && final(self).processes@
                == old(self).processes@,
            trap is Other ==> service is Ended && final(self).processes@
                == old(self).processes@.drop_first(),
            trap is UserEnvCall ==> ({
                let first = old(self).processes@[0];
                let id = argument(first.context, 7);
                &&& id == SYSCALL_FRAMEBUFFER ==> service is FramebufferInfo
                &&& id == SYSCALL_FRAMEBUFFER_FLUSH ==> service is FramebufferFlush
                &&& id == SYSCALL_SET_INPUT_MODE ==> service == Service::SetInputMode(
                    (argument(first.context, 0) % 256) as u8,
                )
                &&& is_device_call(id) ==> final(self).processes@ == old(self).processes@
                &&& !is_device_call(id) ==> {
                    &&& service matches Service::Syscall { id: number, args }
                    &&& number == id
                    &&& forall|n: int|
                        0 <= n < 6 ==> #[trigger] args@[n] == argument(first.context, n)
                    &&& final(self).processes@.len() == old(self).processes@.len()
                    &&& first.recorded(final(self).processes@[0], id)
                }
            }),
            trap is SupervisorTimer ==> {
                &&& final(self).processes@.len() == old(self).processes@.len()
                &&& final(self).processes@.last() == old(self).processes@[0]
                &&& forall|i: int|
                    0 < i < old(self).processes@.len() ==> final(self).processes@[i - 1]
                        == #[trigger] old(self).processes@[i]
            },
            trap is Other ==> {
                &&& final(self).processes@.len() + 1 == old(self).processes@.len()
                &&& forall|i: int|
                    0 < i < old(self).processes@.len() ==> final(self).processes@[i - 1]
                        == #[trigger] old(self).processes@[i]
            },
            trap is UserEnvCall ==> ({
                let regs = context::context_registers(old(self).processes@[0].context);
                &&& final(self).processes@.len() == old(self).processes@.len()
                &&& final(self).processes@[0].context == old(self).processes@[0].context
                &&& final(self).processes@[0].same_but_counts(old(self).processes@[0])
                &&& forall|i: int|
                    0 < i < old(self).processes@.len() ==> final(self).processes@[i]
                        == #[trigger] old(self).processes@[i]
                &&& service is FramebufferInfo <==> regs[17] == 0x1000_0001
                &&& service is FramebufferFlush <==> regs[17] == 0x1000_0002
                &&& service is SetInputMode <==> regs[17] == 0x1000_0003
                &&& service is Syscall <==> regs[17] != 0x1000_0001 && regs[17] != 0x1000_0002
                    && regs[17] != 0x1000_0003
                &&& service matches Service::SetInputMode(mode) ==> mode == regs[10] % 256
                &&& service matches Service::Syscall { id, args } ==> {
                    &&& id == regs[17]
                    &&& args@.len() == 6
                    &&& args@[0] == regs[10]
                    &&& args@[1] == regs[11]
                    &&& args@[2] == regs[12]
                    &&& args@[3] == regs[13]
                    &&& args@[4] == regs[14]
                    &&& args@[5] == regs[15]
                }
            }),
    {
        match trap {
            Trap::SupervisorTimer => {
                let first = self.processes.remove(0);
                self.processes.push(first);
                proof {
                    assert(self.processes@ =~= rotated(old(self).processes@));
                }
                Service::Switched
            },
            Trap::SupervisorExternal => Service::ExternalInterrupt,
            Trap::Other => {
                self.processes.remove(0);
                proof {
                    assert(self.processes@ =~= old(self).processes@.drop_first());
                }
                Service::Ended
            },
            Trap::UserEnvCall => {
                let raw_id: usize = self.processes[0].context.a(7);
                if raw_id == SYSCALL_FRAMEBUFFER {
                    return Service::FramebufferInfo;
                }
                if raw_id == SYSCALL_FRAMEBUFFER_FLUSH {
                    return Service::FramebufferFlush;
                }
                if raw_id == SYSCALL_SET_INPUT_MODE {
                    return Service::SetInputMode(low_byte(self.processes[0].context.a(0)));
                }
                self.processes[0].record_syscall(raw_id);
                let ctx = &self.processes[0].context;
                let args = [ctx.a(0), ctx.a(1), ctx.a(2), ctx.a(3), ctx.a(4), ctx.a(5)];
                Service::Syscall { id: raw_id, args }
            },
        }
    }

    /// Answers the first process's call for the framebuffer's description: address, length, width
    /// and height in the first four argument registers, or where there is none the largest number
    /// and zeros.
    pub fn framebuffer_info_answered(&mut self, info: Option<(usize, usize, usize, usize)>)
        requires
            old(self).processes@.len() > 0,
        ensures
            stays_or_leaves(old(self).processes@, final(self).processes@),
            match info {
                Some((ptr, len, width, height)) => first_resumed(
                    old(self).processes@,
                    final(self).processes@,
                    map![10int => ptr, 11int => len, 12int => width, 13int => height],
                ),
                None => first_resumed(
                    old(self).processes@,
                    final(self).processes@,
                    map![10int => usize::MAX, 11int => 0, 12int => 0, 13int => 0],
                ),
            },
            ({
                let before = old(self).processes@[0].context;
                let after = final(self).processes@[0].context;
                let regs = context::context_registers(after);
                &&& context::context_pc(after) == context::context_pc(before) + 4
                    || context::context_pc(after) == context::context_pc(before) + 4 - (usize::MAX + 1)
                &&& forall|n: int|
                    n < 10 || 13 < n ==> #[trigger] regs[n] == context::context_registers(before)[n]
                &&& info matches Some(values) ==> regs[10] == values.0 && regs[11] == values.1
                    && regs[12] == values.2 && regs[13] == values.3
                &&& info is None ==> regs[10] == usize::MAX && regs[11] == 0 && regs[12] == 0
                    && regs[13] == 0
            }),
            final(self).processes@.len() == old(self).processes@.len(),
    {
        match info {
            Some(values) => answer4(&mut self.processes[0].context, values),
            None => answer4(&mut self.processes[0].context, (usize::MAX, 0, 0, 0)),
        }
    }

    /// Answers the first process's call to show the framebuffer or to change the input mode.
    pub fn device_call_answered(&mut self, status: isize)
        requires
            old(self).processes@.len() > 0,
        ensures
            stays_or_leaves(old(self).processes@, final(self).processes@),
            first_resumed(
                old(self).processes@,
                final(self).processes@,
                map![10int => word::unsigned(status as int) as usize],
            ),
            ({
                let before = old(self).processes@[0].context;
                let after = final(self).processes@[0].context;
                let regs = context::context_registers(after);
                &&& context::context_pc(after) == context::context_pc(before) + 4
                    || context::context_pc(after) == context::context_pc(before) + 4 - (usize::MAX + 1)
                &&& forall|n: int|
                    n != 10 ==> #[trigger] regs[n] == context::context_registers(before)[n]
                &&& regs[10] == status || regs[10] == status + usize::MAX + 1
            }),
            final(self).processes@.len() == old(self).processes@.len(),
    {
        answer(&mut self.processes[0].context, to_unsigned(status));
    }

    /// Answers the first process's system call `id`.
    ///
    /// The process ends where it asked to or where there is no such call; else it resumes with the
    /// result in the first argument register.
    pub fn syscall_answered(&mut self, id: usize, result: SyscallResult)
        requires
            old(self).processes@.len() > 0,
        ensures
            stays_or_leaves(old(self).processes@, final(self).processes@),
            match result {
                SyscallResult::Done(ret) => if id == SYSCALL_EXIT {
                    final(self).processes@ == old(self).processes@.drop_first()
                } else {
                    first_resumed(
                        old(self).processes@,
                        final(self).processes@,
                        map![10int => word::unsigned(ret as int) as usize],
                    )
                },
                SyscallResult::Unsupported => final(self).processes@
                    == old(self).processes@.drop_first(),
            },
            final(self).processes@.len() + 1 == old(self).processes@.len() <==> id == 93
                || result is Unsupported,
            result matches SyscallResult::Done(ret) ==> id != 93 ==> ({
                let before = old(self).processes@[0].context;
                let after = final(self).processes@[0].context;
                let regs = context::context_registers(after);
                &&& final(self).processes@.len() == old(self).processes@.len()
                &&& context::context_pc(after) == context::context_pc(before) + 4
                    || context::context_pc(after) == context::context_pc(before) + 4 - (usize::MAX + 1)
                &&& forall|n: int|
                    n != 10 ==> #[trigger] regs[n] == context::context_registers(before)[n]
                &&& regs[10] == ret || regs[10] == ret + usize::MAX + 1
            }),
            forall|i: int|
                0 < i < old(self).processes@.len() ==> final(self).processes@[i - (old(
                    self).processes@.len() - final(self).processes@.len())]
                    == #[trigger] old(self).processes@[i],
    {
        match result {
            SyscallResult::Done(ret) => {
                if id == SYSCALL_EXIT {
                    self.processes.remove(0);
                    proof {
                        assert(self.processes@ =~= old(self).processes@.drop_first());
                    }
                } else {
                    answer(&mut self.processes[0].context, to_unsigned(ret));
                }
            },
            SyscallResult::Unsupported => {
                self.processes.remove(0);
                proof {
                    assert(self.processes@ =~= old(self).processes@.drop_first());
                }
            },
        }
    }
}

/// Between the ends of time slices processes leave the list one by one from the front, and until
/// one has come to the front nothing touches it: whatever steps the scheduler takes, the processes
/// behind the first are the last ones of the list that it started with.
pub proof fn law_processes_leave_in_order<S>(run: Seq<Seq<Process<S>>>)
    requires
        run.len() > 0,
        forall|t: int| 0 <= t < run.len() - 1 ==> stays_or_leaves(#[trigger] run[t], run[t + 1]),
    ensures
        run.last().len() <= run[0].len(),
        forall|i: int|
            0 < i < run.last().len() ==> #[trigger] run.last()[i] == run[0][run[0].len()
                - run.last().len() + i],
    decreases run.len(),
{
    if run.len() > 1 {
        let shorter = run.drop_last();
        assert forall|t: int| 0 <= t < shorter.len() - 1 implies stays_or_leaves(
            #[trigger] shorter[t],
            shorter[t + 1],
        ) by {
            assert(stays_or_leaves(run[t], run[t + 1]));
        }
        law_processes_leave_in_order(shorter);
        let before = shorter.last();
        let after = run.last();
        assert(stays_or_leaves(run[run.len() - 2], run[run.len() - 2 + 1]));
        assert forall|i: int| 0 < i < after.len() implies #[trigger] after[i]
            == run[0][run[0].len() - after.len() + i] by {
            if after.len() == before.len() {
                assert(after[i] == before[i]);
            } else {
                assert(after[i] == before[i + 1]);
            }
        }
    }
}

/// Time slices go round: after `k` of them the processes stand in the order in which they stood,
/// beginning `k` places further on. So each process gets its turn before any gets a second one.
pub proof fn law_time_slices_go_round<S>(list: Seq<Process<S>>, k: int)
    requires
        0 <= k <= list.len(),
    ensures
        rotated_by(list, k) == list.skip(k) + list.take(k),
        k < list.len() ==> rotated_by(list, k)[0] == list[k],
        k == list.len() ==> rotated_by(list, k) == list,
    decreases k,
{
    if k > 0 {
        law_time_slices_go_round(list, k - 1);
        assert((list.skip(k - 1) + list.take(k - 1)).drop_first() =~= list.skip(k) + list.take(
            k - 1,
        ));
    }
    assert(rotated_by(list, k) =~= list.skip(k) + list.take(k));
    if k == list.len() {
        assert(list.skip(k) + list.take(k) =~= list);
    }
}

/// A call's arguments are the saved registers themselves, from register 10 on: two threads hand over
/// the same argument only where they saved the same value.
pub proof fn law_arguments_are_the_saved_registers(a: LocalContext, b: LocalContext, n: int)
    requires
        0 <= n <= 7,
    ensures
        argument(a, n) == context::context_registers(a)[n + 10],
        argument(a, n) == argument(b, n) <==> context::context_registers(a)[n + 10]
            == context::context_registers(b)[n + 10],
{
}

/// The end of a time slice moves every process one place forward and the first to the end; nothing
/// about any of them changes.
pub proof fn law_time_slice_moves_every_process<S>(list: Seq<Process<S>>, i: int)
    requires
        0 <= i < list.len(),
    ensures
        rotated(list).len() == list.len(),
        i > 0 ==> rotated(list)[i - 1] == list[i],
        rotated(list)[list.len() - 1] == list[0],
{
}

/// Answering the first process changes what it finds in the registers answered in and where it goes
/// on, and nothing else of it or of the others.
pub proof fn law_answer_reaches_the_first_process_alone<S>(
    before: Seq<Process<S>>,
    after: Seq<Process<S>>,
    answers: Map<int, usize>,
    i: int,
    n: int,
)
    requires
        before.len() > 0,
        first_resumed(before, after, answers),
        0 < i < before.len(),
    ensures
        after.len() == before.len(),
        after[i] == before[i],
        after[0].satp == before[0].satp && after[0].address_space == before[0].address_space
            && after[0].heap_bottom == before[0].heap_bottom && after[0].program_brk
            == before[0].program_brk && after[0].fb_mapped == before[0].fb_mapped
            && after[0].syscall_counts == before[0].syscall_counts,
        answers.contains_key(n) ==> argument(after[0].context, n - 10) == answers[n],
        context::context_pc(after[0].context) == context::context_pc(before[0].context) + 4
            || context::context_pc(after[0].context) == context::context_pc(before[0].context) + 4 - (
        usize::MAX + 1),
{
    context::law_answered_thread_goes_on_behind_its_call(
        before[0].context,
        after[0].context,
        answers,
        n,
    );
}

} // verus!
