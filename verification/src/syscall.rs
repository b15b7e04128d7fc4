//! System calls: what each one is answered, and what it asks of memory and devices.
//!
//! A call whose answer depends on the caller's page table comes in steps. The first step names
//! the page attributes that the access needs; whether the caller's page has them decides the rest.

use crate::flags::{self, build_flags, VmFlags, READ, USER, VALID, WRITE};
use crate::input::{Input, MODE_POLLING};
use crate::process::{HeapChange, ProcessList};
use crate::word::{self, low_byte, to_signed};
use vstd::prelude::*;
use vstd::string::StringSliceAdditionalSpecFns;

verus! {

/// The file that input comes from.
pub const STDIN: usize = 0;

/// The file that output goes to.
pub const STDOUT: usize = 1;

/// The file that diagnostics go to.
pub const STDDEBUG: usize = 2;

/// The clock that only ever runs forward.
pub const CLOCK_MONOTONIC: usize = 1;

/// The number of nanoseconds of a second.
pub const NANOSECONDS: usize = 1_000_000_000;

/// The length of a tick of the machine's clock in nanoseconds.
pub const TICK: usize = 80;

/// The next step of a read.
#[derive(Clone, Copy, PartialEq, Eq, Structural, Debug)]
pub enum ReadStep {
    /// The call is answered.
    Return(isize),
    /// The serial port is to be asked for a byte.
    Poll,
    /// A byte is to be stored at the caller's buffer, if its page has the attributes needed.
    Deliver {
        /// The byte.
        byte: u8,
        /// The attributes.
        need: VmFlags,
    },
}

/// The next step of a write.
#[derive(Clone, Copy, PartialEq, Eq, Structural, Debug)]
pub enum WriteStep {
    /// The call is answered.
    Return(isize),
    /// The caller's buffer is to be printed, if its page has the attributes needed.
    Print {
        /// The attributes.
        need: VmFlags,
    },
}

/// The next step of a request for the time.
#[derive(Clone, Copy, PartialEq, Eq, Structural, Debug)]
pub enum ClockStep {
    /// The call is answered.
    Return(isize),
    /// The time is to be stored at the caller's address, if its page has the attributes needed.
    Store {
        /// The attributes.
        need: VmFlags,
    },
}

/// The next step of a trace request.
#[derive(Clone, Copy, PartialEq, Eq, Structural, Debug)]
pub enum TraceStep {
    /// The call is answered.
    Return(isize),
    /// A byte of the caller's memory is to be read, if its page has the attributes needed.
    Peek {
        /// The attributes.
        need: VmFlags,
    },
    /// A byte of the caller's memory is to be written, if its page has the attributes needed.
    Poke {
        /// The byte.
        byte: u8,
        /// The attributes.
        need: VmFlags,
    },
}

/// A point in time.
#[derive(Clone, Copy, PartialEq, Eq, Structural, Debug)]
pub struct TimeSpec {
    /// Whole seconds.
    pub tv_sec: usize,
    /// The nanoseconds beyond them.
    pub tv_nsec: usize,
}

/// The answer to a request to move the heap's end.
#[derive(Clone, Copy, PartialEq, Eq, Structural, Debug)]
pub struct SbrkReply {
    /// What the call returns, once the heap's pages follow.
    pub ret: isize,
    /// What the address space has to follow.
    pub change: HeapChange,
}

/// The attributes that a byte of input needs of the page that it is stored to, and a traced write
/// of its page.
pub open spec fn user_writable() -> VmFlags {
    VmFlags { bits: (USER + WRITE + VALID) as usize }
}

/// The attributes that a traced read needs of its page.
pub open spec fn user_readable() -> VmFlags {
    VmFlags { bits: (USER + READ + VALID) as usize }
}

/// The attributes that output needs of the page that it is read from.
pub open spec fn readable() -> VmFlags {
    VmFlags { bits: (READ + VALID) as usize }
}

/// The attributes that the time needs of the page that it is stored to.
pub open spec fn writable() -> VmFlags {
    VmFlags { bits: (WRITE + VALID) as usize }
}

/// The attributes that a byte of input and a traced write need.
fn user_writable_flags() -> (flags: VmFlags)
    ensures
        flags == user_writable(),
{
    proof {
        reveal_strlit("U_W_V");
        assert("U_W_V"@ =~= seq!['U', '_', 'W', '_', 'V']);
        vstd::string::is_ascii_spec_bytes("U_W_V");
        let text = "U_W_V".spec_bytes();
        assert(text[0] == flags::LETTER_U && text[2] == flags::LETTER_W && text[4]
            == flags::LETTER_V);
    }
    build_flags("U_W_V")
}

/// The attributes that a traced read needs.
fn user_readable_flags() -> (flags: VmFlags)
    ensures
        flags == user_readable(),
{
    proof {
        reveal_strlit("U_RV");
        assert("U_RV"@ =~= seq!['U', '_', 'R', 'V']);
        vstd::string::is_ascii_spec_bytes("U_RV");
        let text = "U_RV".spec_bytes();
        assert(text[0] == flags::LETTER_U && text[2] == flags::LETTER_R && text[3]
            == flags::LETTER_V);
    }
    build_flags("U_RV")
}

/// The attributes that output needs.
fn readable_flags() -> (flags: VmFlags)
    ensures
        flags == readable(),
{
    proof {
        reveal_strlit("RV");
        assert("RV"@ =~= seq!['R', 'V']);
        vstd::string::is_ascii_spec_bytes("RV");
        let text = "RV".spec_bytes();
        assert(text[0] == flags::LETTER_R && text[1] == flags::LETTER_V);
    }
    build_flags("RV")
}

/// The attributes that the time needs.
fn writable_flags() -> (flags: VmFlags)
    ensures
        flags == writable(),
{
    proof {
        reveal_strlit("W_V");
        assert("W_V"@ =~= seq!['W', '_', 'V']);
        vstd::string::is_ascii_spec_bytes("W_V");
        let text = "W_V".spec_bytes();
        assert(text[0] == flags::LETTER_W && text[2] == flags::LETTER_V);
    }
    build_flags("W_V")
}

/// The system calls.
pub struct SyscallContext;

impl SyscallContext {
    /// Starts a read of `count` bytes from a file.
    ///
    /// Nothing is read where nothing is asked for, and only the input can be read from, a byte at
    /// a time. A key that waits comes first; without one the serial port is asked in polling mode,
    /// and else the answer is -2.
    pub fn read(&self, input: &mut Input, fd: usize, count: usize) -> (step: ReadStep)
        ensures
            step is Deliver <==> count != 0 && fd == 0 && old(input).ready,
            step is Poll <==> count != 0 && fd == 0 && !old(input).ready && old(input).mode == 0,
            step matches ReadStep::Deliver { byte, need } ==> byte == old(input).key && need.bits == 21,
            step matches ReadStep::Return(ret) ==> ret == if count == 0 {
                0int
            } else if fd != 0 {
                -1int
            } else {
                -2int
            },
            final(input).mode == old(input).mode,
            final(input).key == old(input).key,
            final(input).ready == (old(input).ready && (count == 0 || fd != 0)),
            count == 0 ==> step == ReadStep::Return(0) && *final(input) == *old(input),
            count != 0 && fd != STDIN ==> step is Return && step->Return_0 == -1
                && *final(input) == *old(input),
            count != 0 && fd == STDIN ==> {
                &&& *final(input) == old(input).popped()
                &&& match old(input).pending() {
                    Some(byte) => step == (ReadStep::Deliver { byte, need: user_writable() }),
                    None => if old(input).mode == MODE_POLLING {
                        step is Poll
                    } else {
                        step is Return && step->Return_0 == -2
                    },
                }
            },
    {
        if count == 0 {
            return ReadStep::Return(0);
        }
        if fd != STDIN {
            return ReadStep::Return(-1);
        }
        match input.pop_input_key() {
            Some(byte) => ReadStep::Deliver { byte, need: user_writable_flags() },
            None => if input.mode == MODE_POLLING {
                ReadStep::Poll
            } else {
                ReadStep::Return(-2)
            },
        }
    }

    /// Goes on with a read after the serial port has been asked.
    pub fn read_polled(&self, polled: Option<u8>) -> (step: ReadStep)
        ensures
            match polled {
                Some(byte) => step == (ReadStep::Deliver { byte, need: user_writable() }),
                None => step is Return && step->Return_0 == -2,
            },
    {
        match polled {
            Some(byte) => ReadStep::Deliver { byte, need: user_writable_flags() },
            None => ReadStep::Return(-2),
        }
    }

    /// Answers a read: one byte where it could be stored, else -1.
    pub fn read_delivered(&self, stored: bool) -> (ret: isize)
        ensures
            ret == if stored {
                1int
            } else {
                -1int
            },
    {
        if stored {
            1
        } else {
            -1
        }
    }

    /// Starts a write to a file, which can be the output or the diagnostics.
    pub fn write(&self, fd: usize) -> (step: WriteStep)
        ensures
            fd == STDOUT || fd == STDDEBUG ==> step == (WriteStep::Print { need: readable() }),
            fd != STDOUT && fd != STDDEBUG ==> step is Return && step->Return_0 == -1,
    {
        if fd == STDOUT || fd == STDDEBUG {
            WriteStep::Print { need: readable_flags() }
        } else {
            WriteStep::Return(-1)
        }
    }

    /// Answers a write of `count` bytes: all of them where they could be printed, else -1.
    pub fn write_printed(&self, printed: bool, count: usize) -> (ret: isize)
        ensures
            ret == if printed {
                word::signed(count as int)
            } else {
                -1int
            },
    {
        if printed {
            to_signed(count)
        } else {
            -1
        }
    }

    /// Ends the caller, whatever its status.
    pub fn exit(&self, _status: usize) -> (ret: isize)
        ensures
            ret == 0,
    {
        0
    }

    /// Moves the end of the heap of process `entity` by `size` bytes.
    ///
    /// The answer is where the heap ended before; -1 where there is no such process or its heap
    /// cannot end there, and then nothing changes.
    pub fn sbrk<S>(&self, list: &mut ProcessList<S>, entity: usize, size: i32) -> (reply: SbrkReply)
        ensures
            entity >= old(list).processes@.len() ==> {
                &&& reply.ret == -1
                &&& reply.change is Keep
                &&& final(list).processes@ == old(list).processes@
            },
            entity < old(list).processes@.len() ==> ({
                let before = old(list).processes@[entity as int];
                let after = final(list).processes@[entity as int];
                let new_brk = before.program_brk + size;
                &&& final(list).processes@.len() == old(list).processes@.len()
                &&& forall|i: int|
                    0 <= i < final(list).processes@.len() && i != entity
                        ==> #[trigger] final(list).processes@[i] == old(list).processes@[i]
                &&& after.context == before.context
                &&& after.satp == before.satp
                &&& after.address_space == before.address_space
                &&& after.heap_bottom == before.heap_bottom
                &&& after.fb_mapped == before.fb_mapped
                &&& after.syscall_counts == before.syscall_counts
                &&& if before.heap_bottom <= new_brk <= usize::MAX {
                    &&& reply.ret == word::signed(before.program_brk as int)
                    &&& reply.ret == before.program_brk || reply.ret + usize::MAX + 1
                        == before.program_brk
                    &&& reply.change == crate::process::heap_change(
                        before.program_brk as int,
                        new_brk,
                    )
                    &&& after.program_brk == new_brk
                } else {
                    &&& reply.ret == -1
                    &&& reply.change is Keep
                    &&& after.program_brk == before.program_brk
                }
            }),
    {
        if entity >= list.processes.len() {
            return SbrkReply { ret: -1, change: HeapChange::Keep };
        }
        match list.processes[entity].change_program_brk(size as isize) {
            Some(moved) => SbrkReply { ret: to_signed(moved.old_brk), change: moved.change },
            None => SbrkReply { ret: -1, change: HeapChange::Keep },
        }
    }

    /// Gives the processor up, which changes nothing while one process runs at a time.
    pub fn sched_yield(&self) -> (ret: isize)
        ensures
            ret == 0,
    {
        0
    }

    /// Starts a request for the time of a clock.
    pub fn clock_gettime(&self, clock_id: usize) -> (step: ClockStep)
        ensures
            clock_id == CLOCK_MONOTONIC ==> step == (ClockStep::Store { need: writable() }),
            clock_id != CLOCK_MONOTONIC ==> step is Return && step->Return_0 == -1,
    {
        if clock_id == CLOCK_MONOTONIC {
            ClockStep::Store { need: writable_flags() }
        } else {
            ClockStep::Return(-1)
        }
    }

    /// The time at which the machine's clock shows `ticks`.
    pub fn time_at(&self, ticks: usize) -> (time: TimeSpec)
        requires
            ticks * 10000 <= usize::MAX,
        ensures
            time == time_of(ticks as int),
    {
        let time: usize = ticks * 10000 / 125;
        TimeSpec { tv_sec: time / 1_000_000_000, tv_nsec: time % 1_000_000_000 }
    }

    /// Answers a request for the time: 0 where it could be stored, else -1.
    pub fn clock_stored(&self, stored: bool) -> (ret: isize)
        ensures
            ret == if stored {
                0int
            } else {
                -1int
            },
    {
        if stored {
            0
        } else {
            -1
        }
    }

    /// Starts a trace request of process `entity`: 0 reads the byte at address `id`, 1 writes the
    /// low byte of `data` there, and 2 asks how often system call `id` has been made.
    pub fn trace<S>(
        &self,
        list: &ProcessList<S>,
        entity: usize,
        trace_request: usize,
        id: usize,
        data: usize,
    ) -> (step: TraceStep)
        ensures
            step is Peek <==> entity < list.processes@.len() && trace_request == 0,
            step is Poke <==> entity < list.processes@.len() && trace_request == 1,
            step matches TraceStep::Peek { need } ==> need.bits == 19,
            step matches TraceStep::Poke { byte, need } ==> byte == data % 256 && need.bits == 21,
            step matches TraceStep::Return(ret) ==> if entity < list.processes@.len()
                && trace_request == 2 {
                let counts = list.processes@[entity as int].syscall_counts@;
                let count = if counts.contains_key(id) {
                    counts[id]
                } else {
                    0
                };
                ret == count || ret + usize::MAX + 1 == count
            } else {
                ret == -1
            },
            entity >= list.processes@.len() || trace_request > 2 ==> step is Return
                && step->Return_0 == -1,
            entity < list.processes@.len() && trace_request == 0 ==> step == (TraceStep::Peek {
                need: user_readable(),
            }),
            entity < list.processes@.len() && trace_request == 1 ==> step == (TraceStep::Poke {
                byte: (data % 256) as u8,
                need: user_writable(),
            }),
            entity < list.processes@.len() && trace_request == 2 ==> step is Return
                && step->Return_0 == word::signed(list.processes@[entity as int].calls(id) as int),
    {
        if entity >= list.processes.len() {
            return TraceStep::Return(-1);
        }
        match trace_request {
            0 => TraceStep::Peek { need: user_readable_flags() },
            1 => TraceStep::Poke { byte: low_byte(data), need: user_writable_flags() },
            2 => TraceStep::Return(to_signed(list.processes[entity].syscall_count(id))),
            _ => TraceStep::Return(-1),
        }
    }

    /// Answers a traced read: the byte where it could be read, else -1.
    pub fn trace_peeked(&self, byte: Option<u8>) -> (ret: isize)
        ensures
            match byte {
                Some(byte) => ret == byte,
                None => ret == -1,
            },
    {
        match byte {
            Some(byte) => byte as isize,
            None => -1,
        }
    }

    /// Answers a traced write: 0 where the byte could be written, else -1.
    pub fn trace_poked(&self, written: bool) -> (ret: isize)
        ensures
            ret == if written {
                0int
            } else {
                -1int
            },
    {
        if written {
            0
        } else {
            -1
        }
    }
}

/// The time at which the machine's clock shows `ticks`.
pub open spec fn time_of(ticks: int) -> TimeSpec {
    TimeSpec {
        tv_sec: (ticks * TICK / NANOSECONDS as int) as usize,
        tv_nsec: (ticks * TICK % NANOSECONDS as int) as usize,
    }
}

/// The time is that of the ticks gone by, with less than a second of nanoseconds, and it never runs
/// backward.
pub proof fn law_time_runs_forward(ticks: int, later: int)
    requires
        0 <= ticks <= later,
        later * 10000 <= usize::MAX,
    ensures
        time_of(ticks).tv_nsec < NANOSECONDS,
        time_of(ticks).tv_sec * NANOSECONDS + time_of(ticks).tv_nsec == ticks * TICK,
        time_of(ticks).tv_sec < time_of(later).tv_sec || time_of(ticks).tv_sec == time_of(
            later,
        ).tv_sec && time_of(ticks).tv_nsec <= time_of(later).tv_nsec,
{
}

/// What the steps of a read, a write and a request for the time come to: which pages they need, and
/// what each outcome is answered with. Only the output and the diagnostics are written to, only the
/// monotonic clock is asked, and a write is answered with all that it was asked to write.
pub proof fn law_outcomes_are_answered(
    ctx: SyscallContext,
    polled: Option<u8>,
    read: ReadStep,
    done: bool,
    read_ret: isize,
    fd: usize,
    write: WriteStep,
    count: usize,
    write_ret: isize,
    clock_id: usize,
    clock: ClockStep,
    clock_ret: isize,
    byte: Option<u8>,
    peek_ret: isize,
    poke_ret: isize,
)
    requires
        call_ensures(SyscallContext::read_polled, (&ctx, polled), read),
        call_ensures(SyscallContext::read_delivered, (&ctx, done), read_ret),
        call_ensures(SyscallContext::write, (&ctx, fd), write),
        call_ensures(SyscallContext::write_printed, (&ctx, done, count), write_ret),
        call_ensures(SyscallContext::clock_gettime, (&ctx, clock_id), clock),
        call_ensures(SyscallContext::clock_stored, (&ctx, done), clock_ret),
        call_ensures(SyscallContext::trace_peeked, (&ctx, byte), peek_ret),
        call_ensures(SyscallContext::trace_poked, (&ctx, done), poke_ret),
    ensures
        polled matches Some(key) ==> read == (ReadStep::Deliver {
            byte: key,
            need: VmFlags { bits: 21 },
        }),
        polled is None ==> read is Return && read->Return_0 == -2,
        done ==> read_ret == 1 && clock_ret == 0 && poke_ret == 0,
        !done ==> read_ret == -1 && clock_ret == -1 && poke_ret == -1 && write_ret == -1,
        done ==> write_ret == count || write_ret + usize::MAX + 1 == count,
        fd == 1 || fd == 2 ==> write == (WriteStep::Print { need: VmFlags { bits: 3 } }),
        fd != 1 && fd != 2 ==> write is Return && write->Return_0 == -1,
        clock_id == 1 ==> clock == (ClockStep::Store { need: VmFlags { bits: 5 } }),
        clock_id != 1 ==> clock is Return && clock->Return_0 == -1,
        byte matches Some(b) ==> peek_ret == b,
        byte is None ==> peek_ret == -1,
{
}

/// A tick is 80 nanoseconds: the time after some ticks is that many nanoseconds, of which less than a
/// second is not in the seconds.
pub proof fn law_a_tick_is_eighty_nanoseconds(ctx: SyscallContext, ticks: usize, time: TimeSpec)
    requires
        ticks * 10000 <= usize::MAX,
        call_ensures(SyscallContext::time_at, (&ctx, ticks), time),
    ensures
        time.tv_sec * 1_000_000_000 + time.tv_nsec == ticks * 80,
        time.tv_nsec < 1_000_000_000,
{
}

} // verus!
