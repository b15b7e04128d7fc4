//! Platform-level interrupt controller.
//!
//! Addresses of its registers, and the stores that set a source's priority, enable a source for
//! a target, set a target's threshold and complete a claimed interrupt.

use crate::mmio::Write32;
use vstd::prelude::*;

verus! {

/// The number of the last interrupt source.
pub const LAST_SOURCE: usize = 132;

/// The privilege level that an interrupt is delivered to.
#[derive(Clone, Copy, PartialEq, Eq, Structural, Debug)]
pub enum IntrTargetPriority {
    /// Machine mode.
    Machine,
    /// Supervisor mode.
    Supervisor,
}

impl IntrTargetPriority {
    /// The level's number among the targets of a hart.
    pub open spec fn number(self) -> int {
        match self {
            IntrTargetPriority::Machine => 0,
            IntrTargetPriority::Supervisor => 1,
        }
    }

    /// The number of targets of a hart.
    pub fn supported_number() -> (n: usize)
        ensures
            n == 2,
    {
        2
    }

    /// The level's number among the targets of a hart.
    pub fn index(self) -> (n: usize)
        ensures
            n == self.number(),
    {
        match self {
            IntrTargetPriority::Machine => 0,
            IntrTargetPriority::Supervisor => 1,
        }
    }
}

/// The number of a target among those of all harts.
pub open spec fn target_id(hart_id: int, target: IntrTargetPriority) -> int {
    2 * hart_id + target.number()
}

/// The interrupt controller.
pub struct Plic {
    /// The address of its registers.
    pub base_addr: usize,
}

impl Plic {
    /// The address of a source's priority register.
    pub open spec fn priority_addr(self, source: int) -> int {
        self.base_addr + 4 * source
    }

    /// The address of the word that holds a source's enable bit for a target.
    pub open spec fn enable_addr(self, hart_id: int, target: IntrTargetPriority, source: int) -> int {
        self.base_addr + 0x2000 + 0x80 * target_id(hart_id, target) + 4 * (source / 32)
    }

    /// The address of a target's threshold register.
    pub open spec fn threshold_addr(self, hart_id: int, target: IntrTargetPriority) -> int {
        self.base_addr + 0x20_0000 + 0x1000 * target_id(hart_id, target)
    }

    /// The address of a target's claim and complete register.
    pub open spec fn claim_addr(self, hart_id: int, target: IntrTargetPriority) -> int {
        self.threshold_addr(hart_id, target) + 4
    }

    /// The controller whose registers stand at an address.
    pub fn new(base_addr: usize) -> (plic: Plic)
        ensures
            plic.base_addr == base_addr,
    {
        Plic { base_addr }
    }

    /// The address of a source's priority register.
    pub fn priority_ptr(&self, intr_source_id: usize) -> (addr: usize)
        requires
            0 < intr_source_id <= LAST_SOURCE,
            self.priority_addr(intr_source_id as int) <= usize::MAX,
        ensures
            addr == self.priority_addr(intr_source_id as int),
    {
        self.base_addr + intr_source_id * 4
    }

    /// The number of a target among those of all harts.
    pub fn hart_id_with_priority(hart_id: usize, target_priority: IntrTargetPriority) -> (id: usize)
        requires
            target_id(hart_id as int, target_priority) <= usize::MAX,
        ensures
            id == target_id(hart_id as int, target_priority),
            id / 2 == hart_id,
            id % 2 == if target_priority is Supervisor {
                1int
            } else {
                0int
            },
    {
        hart_id * IntrTargetPriority::supported_number() + target_priority.index()
    }

    /// The address of the word that holds a source's enable bit for a target, and the bit's place
    /// in it.
    pub fn enable_ptr(
        &self,
        hart_id: usize,
        target_priority: IntrTargetPriority,
        intr_source_id: usize,
    ) -> (place: (usize, usize))
        requires
            self.enable_addr(hart_id as int, target_priority, intr_source_id as int) <= usize::MAX,
        ensures
            place.0 == self.enable_addr(hart_id as int, target_priority, intr_source_id as int),
            place.1 == intr_source_id % 32,
    {
        let id = Self::hart_id_with_priority(hart_id, target_priority);
        let (reg_id, reg_shift): (usize, usize) = (intr_source_id / 32, intr_source_id % 32);
        (self.base_addr + 0x2000 + 0x80 * id + 0x4 * reg_id, reg_shift)
    }

    /// The address of a target's threshold register.
    pub fn threshold_ptr(&self, hart_id: usize, target_priority: IntrTargetPriority) -> (addr: usize)
        requires
            self.threshold_addr(hart_id as int, target_priority) <= usize::MAX,
        ensures
            addr == self.threshold_addr(hart_id as int, target_priority),
    {
        let id = Self::hart_id_with_priority(hart_id, target_priority);
        self.base_addr + 0x20_0000 + 0x1000 * id
    }

    /// The address of a target's claim and complete register.
    pub fn claim_complete_ptr(
        &self,
        hart_id: usize,
        target_priority: IntrTargetPriority,
    ) -> (addr: usize)
        requires
            self.claim_addr(hart_id as int, target_priority) <= usize::MAX,
        ensures
            addr == self.claim_addr(hart_id as int, target_priority),
    {
        let id = Self::hart_id_with_priority(hart_id, target_priority);
        self.base_addr + 0x20_0004 + 0x1000 * id
    }

    /// The store that sets a source's priority, from 0 to 7.
    pub fn set_priority(&self, intr_source_id: usize, priority: u32) -> (write: Write32)
        requires
            priority < 8,
            0 < intr_source_id <= LAST_SOURCE,
            self.priority_addr(intr_source_id as int) <= usize::MAX,
        ensures
            write.addr == self.priority_addr(intr_source_id as int),
            write.value == priority,
    {
        Write32 { addr: self.priority_ptr(intr_source_id), value: priority }
    }

    /// The store that enables a source for a target, where `current` is what the word that holds
    /// its enable bit shows.
    ///
    /// The source's bit is set and the others stay.
    pub fn enable(
        &self,
        hart_id: usize,
        target_priority: IntrTargetPriority,
        intr_source_id: usize,
        current: u32,
    ) -> (write: Write32)
        requires
            self.enable_addr(hart_id as int, target_priority, intr_source_id as int) <= usize::MAX,
        ensures
            write.addr == self.enable_addr(hart_id as int, target_priority, intr_source_id as int),
            write.addr - self.base_addr == 0x2000 + 0x100 * hart_id + (if target_priority is Supervisor {
                0x80int
            } else {
                0
            }) + 4 * (intr_source_id as int / 32),
            forall|bit: u32|
                #![trigger write.value >> bit]
                bit < 32 ==> (write.value >> bit) & 1 == if bit == intr_source_id % 32 {
                    1
                } else {
                    (current >> bit) & 1
                },
    {
        let (addr, shift) = self.enable_ptr(hart_id, target_priority, intr_source_id);
        let place: u32 = shift as u32;
        let value: u32 = current | (1u32 << place);
        assert forall|bit: u32| #![trigger value >> bit] bit < 32 implies (value >> bit) & 1
            == if bit == place {
            1
        } else {
            (current >> bit) & 1
        } by {
            assert((value >> bit) & 1 == if bit == place {
                1u32
            } else {
                (current >> bit) & 1
            }) by (bit_vector)
                requires
                    bit < 32,
                    place < 32,
                    value == current | (1u32 << place),
            ;
        }
        Write32 { addr, value }
    }

    /// The store that sets a target's threshold, from 0 to 7.
    pub fn set_threshold(
        &self,
        hart_id: usize,
        target_priority: IntrTargetPriority,
        threshold: u32,
    ) -> (write: Write32)
        requires
            threshold < 8,
            self.threshold_addr(hart_id as int, target_priority) <= usize::MAX,
        ensures
            write.addr == self.threshold_addr(hart_id as int, target_priority),
            write.value == threshold,
    {
        Write32 { addr: self.threshold_ptr(hart_id, target_priority), value: threshold }
    }

    /// The register whose read claims an interrupt for a target.
    pub fn claim(&self, hart_id: usize, target_priority: IntrTargetPriority) -> (addr: usize)
        requires
            self.claim_addr(hart_id as int, target_priority) <= usize::MAX,
        ensures
            addr == self.claim_addr(hart_id as int, target_priority),
    {
        self.claim_complete_ptr(hart_id, target_priority)
    }

    /// The store that completes an interrupt for a target.
    pub fn complete(
        &self,
        hart_id: usize,
        target_priority: IntrTargetPriority,
        completion: u32,
    ) -> (write: Write32)
        requires
            self.claim_addr(hart_id as int, target_priority) <= usize::MAX,
        ensures
            write.addr == self.claim_addr(hart_id as int, target_priority),
            write.value == completion,
    {
        Write32 { addr: self.claim_complete_ptr(hart_id, target_priority), value: completion }
    }
}

/// Every register stands at its place: a priority word for each source, a row of enable bits, a
/// threshold and a claim register for each target, two targets to a hart, machine mode first. What
/// is stored goes there as it is.
pub proof fn law_registers_stand_at_their_places(
    plic: Plic,
    hart: usize,
    target: IntrTargetPriority,
    source: usize,
    value: u32,
    priority: usize,
    place: (usize, usize),
    threshold: usize,
    claim: usize,
    set_priority: Write32,
    set_threshold: Write32,
    complete: Write32,
    claimed: usize,
)
    requires
        call_ensures(Plic::priority_ptr, (&plic, source), priority),
        call_ensures(Plic::enable_ptr, (&plic, hart, target, source), place),
        call_ensures(Plic::threshold_ptr, (&plic, hart, target), threshold),
        call_ensures(Plic::claim_complete_ptr, (&plic, hart, target), claim),
        call_ensures(Plic::set_priority, (&plic, source, value), set_priority),
        call_ensures(Plic::set_threshold, (&plic, hart, target, value), set_threshold),
        call_ensures(Plic::complete, (&plic, hart, target, value), complete),
        call_ensures(Plic::claim, (&plic, hart, target), claimed),
    ensures
        ({
            let id = 2 * hart + if target is Supervisor {
                1int
            } else {
                0int
            };
            &&& priority - plic.base_addr == 4 * source
            &&& place.0 - plic.base_addr == 0x2000 + 0x80 * id + 4 * (source as int / 32)
            &&& place.1 == source % 32
            &&& threshold - plic.base_addr == 0x20_0000 + 0x1000 * id
            &&& claim == threshold + 4
        }),
        set_priority == (Write32 { addr: priority, value }),
        set_threshold == (Write32 { addr: threshold, value }),
        complete == (Write32 { addr: claim, value }),
        claimed == claim,
{
}

/// No two sources share an enable bit of a target, and no two targets share an enable bit, a
/// threshold or a claim register, as long as the sources are those that there are.
pub proof fn law_targets_have_registers_of_their_own(
    plic: Plic,
    hart: int,
    target: IntrTargetPriority,
    source: int,
    hart2: int,
    target2: IntrTargetPriority,
    source2: int,
)
    requires
        0 <= hart,
        0 <= hart2,
        0 < source <= 132,
        0 < source2 <= 132,
        (hart, target) != (hart2, target2) || source != source2,
    ensures
        plic.enable_addr(hart, target, source) != plic.enable_addr(hart2, target2, source2) || source
            % 32 != source2 % 32,
        source != source2 ==> plic.priority_addr(source) != plic.priority_addr(source2),
        (hart, target) != (hart2, target2) ==> {
            &&& plic.threshold_addr(hart, target) != plic.threshold_addr(hart2, target2)
            &&& plic.claim_addr(hart, target) != plic.claim_addr(hart2, target2)
        },
        plic.threshold_addr(hart, target) != plic.claim_addr(hart2, target2),
{
    assert(target is Machine || target is Supervisor);
    assert(target2 is Machine || target2 is Supervisor);
}

} // verus!
