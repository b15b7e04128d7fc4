//! User processes and the list in which they wait for the processor.

use crate::sv39::{self, vaddr_ceil, PageRange};
use std::collections::BTreeMap;
use tg_kernel_context::LocalContext;
use vstd::prelude::*;

verus! {

/// A user process whose memory is kept in an `S`.
pub struct Process<S> {
    /// The saved registers.
    pub context: LocalContext,
    /// The address space register's value while the process runs.
    pub satp: usize,
    /// The address space.
    pub address_space: S,
    /// Where the heap starts.
    pub heap_bottom: usize,
    /// Where the heap ends.
    pub program_brk: usize,
    /// Whether the framebuffer is mapped.
    pub fb_mapped: bool,
    /// How often each system call has been made, by number; one that was never made is missing.
    pub syscall_counts: BTreeMap<usize, usize>,
}

/// What a move of the heap's end asks of the address space.
#[derive(Clone, Copy, PartialEq, Eq, Structural, Debug)]
pub enum HeapChange {
    /// The same pages hold the heap.
    Keep,
    /// Pages are to be added.
    Grow(PageRange),
    /// Pages are to be taken away.
    Shrink(PageRange),
}

/// A successful move of the heap's end.
#[derive(Clone, Copy, PartialEq, Eq, Structural, Debug)]
pub struct BrkMove {
    /// Where the heap ended before.
    pub old_brk: usize,
    /// What the address space has to follow.
    pub change: HeapChange,
}

/// What a move of the heap's end from `old_brk` to `new_brk` asks of the address space: the heap
/// takes up whole pages.
pub open spec fn heap_change(old_brk: int, new_brk: int) -> HeapChange {
    let old_end = sv39::ceil_page(old_brk) as usize;
    let new_end = sv39::ceil_page(new_brk) as usize;
    if new_brk > old_brk && new_end > old_end {
        HeapChange::Grow(PageRange { start: old_end, end: new_end })
    } else if new_brk < old_brk && new_end < old_end {
        HeapChange::Shrink(PageRange { start: new_end, end: old_end })
    } else {
        HeapChange::Keep
    }
}

impl<S> Process<S> {
    /// The heap does not end before it starts.
    pub open spec fn wf(self) -> bool {
        self.heap_bottom <= self.program_brk
    }

    /// How often a system call has been made.
    pub open spec fn calls(self, id: usize) -> usize {
        if self.syscall_counts@.contains_key(id) {
            self.syscall_counts@[id]
        } else {
            0
        }
    }

    /// The same process but for its saved registers.
    pub open spec fn same_but_context(self, other: Process<S>) -> bool {
        &&& self.satp == other.satp
        &&& self.address_space == other.address_space
        &&& self.heap_bottom == other.heap_bottom
        &&& self.program_brk == other.program_brk
        &&& self.fb_mapped == other.fb_mapped
        &&& self.syscall_counts == other.syscall_counts
    }

    /// The same process but for its saved registers and its call counts.
    pub open spec fn same_but_counts(self, other: Process<S>) -> bool {
        &&& self.satp == other.satp
        &&& self.address_space == other.address_space
        &&& self.heap_bottom == other.heap_bottom
        &&& self.program_brk == other.program_brk
        &&& self.fb_mapped == other.fb_mapped
    }

    /// The same process but for its call counts, and `id` was called once more.
    pub open spec fn recorded(self, other: Process<S>, id: usize) -> bool {
        &&& self.context == other.context
        &&& self.satp == other.satp
        &&& self.address_space == other.address_space
        &&& self.heap_bottom == other.heap_bottom
        &&& self.program_brk == other.program_brk
        &&& self.fb_mapped == other.fb_mapped
        &&& other.calls(id) == if self.calls(id) < usize::MAX {
            self.calls(id) + 1
        } else {
            usize::MAX as int
        }
        &&& forall|n: usize| n != id ==> #[trigger] other.calls(n) == self.calls(n)
    }

    /// A process that has not run yet, with an empty heap.
    pub fn new(context: LocalContext, satp: usize, address_space: S, heap_bottom: usize) -> (process:
        Process<S>)
        ensures
            process.wf(),
            process.context == context,
            process.satp == satp,
            process.address_space == address_space,
            process.heap_bottom == heap_bottom,
            process.program_brk == heap_bottom,
            !process.fb_mapped,
            forall|id: usize| #[trigger] process.calls(id) == 0,
            process.syscall_counts@ == Map::<usize, usize>::empty(),
    {
        Process {
            context,
            satp,
            address_space,
            heap_bottom,
            program_brk: heap_bottom,
            fb_mapped: false,
            syscall_counts: BTreeMap::new(),
        }
    }

    /// How often a system call has been made.
    pub fn syscall_count(&self, id: usize) -> (count: usize)
        ensures
            count == self.calls(id),
            self.syscall_counts@.contains_key(id) ==> count == self.syscall_counts@[id],
            !self.syscall_counts@.contains_key(id) ==> count == 0,
    {
        broadcast use vstd::laws_cmp::group_laws_cmp;

        match self.syscall_counts.get(&id) {
            Some(count) => *count,
            None => 0,
        }
    }

    /// Counts a system call. The count stays at the largest number once it has reached it.
    pub fn record_syscall(&mut self, id: usize)
        ensures
            old(self).recorded(*final(self), id),
            final(self).syscall_counts@.contains_key(id),
            forall|n: usize|
                n != id ==> #[trigger] final(self).syscall_counts@.contains_key(n)
                    == old(self).syscall_counts@.contains_key(n),
            forall|n: usize|
                n != id && old(self).syscall_counts@.contains_key(n)
                    ==> #[trigger] final(self).syscall_counts@[n] == old(self).syscall_counts@[n],
            !old(self).syscall_counts@.contains_key(id) ==> final(self).syscall_counts@[id] == 1,
            old(self).syscall_counts@.contains_key(id) ==> {
                let before = old(self).syscall_counts@[id];
                &&& before < usize::MAX ==> final(self).syscall_counts@[id] == before + 1
                &&& before == usize::MAX ==> final(self).syscall_counts@[id] == before
            },
            final(self).context == old(self).context,
            final(self).satp == old(self).satp,
            final(self).address_space == old(self).address_space,
            final(self).heap_bottom == old(self).heap_bottom,
            final(self).program_brk == old(self).program_brk,
            final(self).fb_mapped == old(self).fb_mapped,
    {
        broadcast use vstd::laws_cmp::group_laws_cmp;

        let count = self.syscall_count(id);
        let next: usize = if count < usize::MAX {
            count + 1
        } else {
            count
        };
        self.syscall_counts.insert(id, next);
    }

    /// Moves the heap's end by `size` bytes, up or down.
    ///
    /// This fails, and changes nothing, where the end would fall below the heap's start or leave
    /// the address range.
    pub fn change_program_brk(&mut self, size: isize) -> (moved: Option<BrkMove>)
        ensures
            ({
                let new_brk = old(self).program_brk + size;
                if old(self).heap_bottom <= new_brk <= usize::MAX && 0 <= new_brk {
                    &&& moved == Some(
                        (BrkMove {
                            old_brk: old(self).program_brk,
                            change: heap_change(old(self).program_brk as int, new_brk),
                        }),
                    )
                    &&& final(self).program_brk == new_brk
                } else {
                    &&& moved is None
                    &&& final(self).program_brk == old(self).program_brk
                }
            }),
            moved is Some <==> old(self).heap_bottom <= old(self).program_brk + size <= usize::MAX,
            moved matches Some(done) ==> {
                &&& done.old_brk == old(self).program_brk
                &&& final(self).program_brk == old(self).program_brk + size
                &&& ({
                    let old_end = (done.old_brk as int % 0x80_0000_0000 + 4095) / 4096;
                    let new_end = (final(self).program_brk as int % 0x80_0000_0000 + 4095) / 4096;
                    &&& done.change is Grow <==> 0 < size && old_end < new_end
                    &&& done.change is Shrink <==> size < 0 && new_end < old_end
                    &&& done.change matches HeapChange::Grow(pages) ==> pages.start == old_end
                        && pages.end == new_end
                    &&& done.change matches HeapChange::Shrink(pages) ==> pages.start == new_end
                        && pages.end == old_end
                })
            },
            moved is None ==> final(self).program_brk == old(self).program_brk,
            old(self).wf() ==> final(self).wf(),
            final(self).context == old(self).context,
            final(self).satp == old(self).satp,
            final(self).address_space == old(self).address_space,
            final(self).heap_bottom == old(self).heap_bottom,
            final(self).fb_mapped == old(self).fb_mapped,
            final(self).syscall_counts == old(self).syscall_counts,
    {
        let old_brk: usize = self.program_brk;
        let new_brk: i128 = old_brk as i128 + size as i128;
        if new_brk < self.heap_bottom as i128 || new_brk > usize::MAX as i128 {
            return None;
        }
        let new_brk: usize = new_brk as usize;
        let old_end = vaddr_ceil(old_brk);
        let new_end = vaddr_ceil(new_brk);
        self.program_brk = new_brk;
        let change = if new_brk > old_brk && new_end > old_end {
            HeapChange::Grow(PageRange { start: old_end, end: new_end })
        } else if new_brk < old_brk && new_end < old_end {
            HeapChange::Shrink(PageRange { start: new_end, end: old_end })
        } else {
            HeapChange::Keep
        };
        Some(BrkMove { old_brk, change })
    }
}

/// The processes that are still to run, the running one first.
pub struct ProcessList<S> {
    /// The processes.
    pub processes: Vec<Process<S>>,
}

impl<S> ProcessList<S> {
    /// A list without processes.
    pub fn new() -> (list: ProcessList<S>)
        ensures
            list.processes@.len() == 0,
    {
        ProcessList { processes: Vec::new() }
    }
}

/// How often a number occurs among the first `n` of a sequence.
pub open spec fn occurrences(ids: Seq<usize>, id: usize, n: int) -> int
    decreases n,
{
    if n <= 0 {
        0
    } else {
        occurrences(ids, id, n - 1) + if ids[n - 1] == id {
            1int
        } else {
            0int
        }
    }
}

/// The count of a system call is how often it has been made, however the calls of a process follow
/// on each other, up to the largest number that can be counted.
pub proof fn law_calls_are_counted<S>(run: Seq<Process<S>>, ids: Seq<usize>, id: usize, n: int)
    requires
        run.len() == ids.len() + 1,
        forall|t: int| 0 <= t < ids.len() ==> (#[trigger] run[t]).recorded(run[t + 1], ids[t]),
        0 <= n <= ids.len(),
        run[0].calls(id) == 0,
    ensures
        run[n].calls(id) == if occurrences(ids, id, n) <= usize::MAX {
            occurrences(ids, id, n)
        } else {
            usize::MAX as int
        },
    decreases n,
{
    if n > 0 {
        law_calls_are_counted(run, ids, id, n - 1);
        assert(run[n - 1].recorded(run[n - 1 + 1], ids[n - 1]));
    }
}

/// Moving the heap's end back gives back the pages that moving it there took, and the other way
/// round.
pub proof fn law_heap_moves_can_be_undone(old_brk: int, new_brk: int)
    ensures
        match heap_change(old_brk, new_brk) {
            HeapChange::Keep => heap_change(new_brk, old_brk) is Keep,
            HeapChange::Grow(pages) => heap_change(new_brk, old_brk) == HeapChange::Shrink(pages),
            HeapChange::Shrink(pages) => heap_change(new_brk, old_brk) == HeapChange::Grow(pages),
        },
{
}

/// The heap's pages follow its end: if before a move the pages that start below the old end are there,
/// then after it those that start below the new end are. Pages that are added were not there, pages
/// that are taken away were.
pub proof fn law_heap_pages_follow_its_end(old_brk: int, new_brk: int, vpn: int)
    requires
        0 <= old_brk < 0x80_0000_0000,
        0 <= new_brk < 0x80_0000_0000,
        0 <= vpn,
    ensures
        ({
            let before = vpn * 4096 < old_brk;
            let after = vpn * 4096 < new_brk;
            match heap_change(old_brk, new_brk) {
                HeapChange::Keep => before == after,
                HeapChange::Grow(pages) => {
                    let added = pages.start <= vpn < pages.end;
                    &&& after == (before || added)
                    &&& !(before && added)
                },
                HeapChange::Shrink(pages) => {
                    let taken = pages.start <= vpn < pages.end;
                    &&& before == (after || taken)
                    &&& !(after && taken)
                },
            }
        }),
{
}

/// Every byte that a program's heap gains is on a page that was there or is added.
pub proof fn law_new_heap_bytes_are_on_pages(old_brk: int, new_brk: int, byte: int)
    requires
        0 <= old_brk <= byte < new_brk < 0x80_0000_0000,
    ensures
        (byte / 4096) * 4096 < old_brk || (heap_change(old_brk, new_brk) matches HeapChange::Grow(
            pages,
        ) && pages.start <= byte / 4096 < pages.end),
{
}

} // verus!
