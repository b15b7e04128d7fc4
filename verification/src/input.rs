//! Keyboard input: the choice between polling and interrupts, and the one key that waits.

use crate::mmio::{Write32, Write8};
use crate::plic::{IntrTargetPriority, Plic};
use crate::uart::{self, UART_IRQ};
use vstd::prelude::*;

verus! {

/// Keys are fetched from the serial port when they are asked for.
pub const MODE_POLLING: u8 = 0;

/// Keys are collected when the serial port interrupts.
pub const MODE_INTERRUPT: u8 = 1;

/// The address of the interrupt controller.
pub const PLIC_BASE: usize = 0x0c00_0000;

/// The hart that the kernel runs on.
pub const HART_ID: usize = 0;

/// The state of the keyboard input.
#[derive(Clone, Copy, PartialEq, Eq, Structural, Debug)]
pub struct Input {
    /// How keys arrive.
    pub mode: u8,
    /// Whether a key waits.
    pub ready: bool,
    /// The last key that came in.
    pub key: u8,
}

/// What a change of the input mode asks of the hardware.
#[derive(Clone, Copy, PartialEq, Eq, Structural, Debug)]
pub struct ModeSwitch {
    /// The store that switches the serial port's receive interrupt.
    pub uart: Write8,
    /// Whether the hart takes external interrupts from here on.
    pub external_interrupts: bool,
}

/// The answer to a request to change the input mode.
#[derive(Clone, Copy, PartialEq, Eq, Structural, Debug)]
pub struct ModeReply {
    /// 0 where the mode is known, else -1.
    pub status: isize,
    /// What to do, where the mode is known.
    pub switch: Option<ModeSwitch>,
}

/// The stores that route the serial port's interrupt, in this order; the enable bit in
/// `enable_word` comes last.
#[derive(Clone, Copy, PartialEq, Eq, Structural, Debug)]
pub struct PlicSetup {
    /// Lets every interrupt through to supervisor mode.
    pub supervisor_threshold: Write32,
    /// Keeps the port's interrupt from machine mode.
    pub machine_threshold: Write32,
    /// The port's priority.
    pub priority: Write32,
    /// The word that holds the port's enable bit.
    pub enable_word: usize,
}

/// The steps that bring the input up, in this order.
#[derive(Clone, Copy, PartialEq, Eq, Structural, Debug)]
pub struct InputSetup {
    /// The serial port's basic mode.
    pub uart: Write8,
    /// The interrupt's route.
    pub plic: PlicSetup,
    /// The initial input mode.
    pub switch: ModeSwitch,
}

/// The interrupt controller at its address.
pub open spec fn plic() -> Plic {
    Plic { base_addr: PLIC_BASE }
}

/// What the input mode asks of the hardware: interrupts are on exactly in interrupt mode.
pub open spec fn mode_switch(mode: u8) -> ModeSwitch {
    ModeSwitch {
        uart: Write8 {
            addr: (uart::UART_BASE + uart::REG_IER) as usize,
            value: if mode == MODE_INTERRUPT {
                uart::IER_RX_AVAILABLE
            } else {
                0
            },
        },
        external_interrupts: mode == MODE_INTERRUPT,
    }
}

/// The state after bytes have come in one after the other.
pub open spec fn collect(input: Input, bytes: Seq<u8>) -> Input
    decreases bytes.len(),
{
    if bytes.len() == 0 {
        input
    } else {
        collect(input, bytes.drop_last()).pushed(bytes.last())
    }
}

impl Input {
    /// The key that waits.
    pub open spec fn pending(self) -> Option<u8> {
        if self.ready {
            Some(self.key)
        } else {
            None
        }
    }

    /// The state after a key has come in.
    pub open spec fn pushed(self, c: u8) -> Input {
        Input { mode: self.mode, ready: true, key: c }
    }

    /// The state after the waiting key has been taken.
    pub open spec fn popped(self) -> Input {
        Input { mode: self.mode, ready: false, key: self.key }
    }

    /// Whether a claimed interrupt means that keys are to be collected.
    pub open spec fn collects(self, irq: u32) -> bool {
        self.mode == MODE_INTERRUPT && irq == UART_IRQ
    }

    /// The input before anything has happened: polling, and no key.
    pub fn new() -> (input: Input)
        ensures
            input == (Input { mode: MODE_POLLING, ready: false, key: 0 }),
    {
        Input { mode: MODE_POLLING, ready: false, key: 0 }
    }

    /// Takes in a key. One that still waits is lost.
    pub fn push_input_key(&mut self, c: u8)
        ensures
            *final(self) == old(self).pushed(c),
            final(self).ready,
            final(self).key == c,
            final(self).mode == old(self).mode,
    {
        self.key = c;
        self.ready = true;
    }

    /// Takes out the key that waits.
    pub fn pop_input_key(&mut self) -> (key: Option<u8>)
        ensures
            key == old(self).pending(),
            *final(self) == old(self).popped(),
            key is Some <==> old(self).ready,
            key is Some ==> key->0 == old(self).key,
            !final(self).ready,
            final(self).key == old(self).key,
            final(self).mode == old(self).mode,
    {
        let ready: bool = self.ready;
        self.ready = false;
        if ready {
            Some(self.key)
        } else {
            None
        }
    }

    /// Changes the input mode, and says what the hardware has to follow.
    pub fn apply_input_mode(&mut self, mode: u8) -> (switch: ModeSwitch)
        ensures
            switch == mode_switch(mode),
            switch.uart.addr == 0x1000_0001,
            switch.uart.value == if mode == 1 {
                1int
            } else {
                0int
            },
            switch.external_interrupts == (mode == 1),
            *final(self) == (Input { mode, ready: old(self).ready, key: old(self).key }),
    {
        self.mode = mode;
        if mode == MODE_INTERRUPT {
            ModeSwitch { uart: uart::set_rx_interrupt(true), external_interrupts: true }
        } else {
            ModeSwitch { uart: uart::set_rx_interrupt(false), external_interrupts: false }
        }
    }

    /// Changes the input mode on a program's behalf; an unknown mode changes nothing.
    pub fn set_input_mode(&mut self, mode: u8) -> (reply: ModeReply)
        ensures
            reply.status == 0 <==> mode == 0 || mode == 1,
            reply.switch matches Some(switch) ==> {
                &&& switch.external_interrupts == (mode == 1)
                &&& switch.uart.addr == 0x1000_0001
                &&& switch.uart.value == mode
            },
            mode == MODE_POLLING || mode == MODE_INTERRUPT ==> {
                &&& reply == (ModeReply { status: 0, switch: Some(mode_switch(mode)) })
                &&& *final(self) == (Input { mode, ready: old(self).ready, key: old(self).key })
            },
            mode != MODE_POLLING && mode != MODE_INTERRUPT ==> {
                &&& reply.status == -1
                &&& reply.switch is None
                &&& *final(self) == *old(self)
            },
    {
        if mode == MODE_POLLING || mode == MODE_INTERRUPT {
            let switch = self.apply_input_mode(mode);
            ModeReply { status: 0, switch: Some(switch) }
        } else {
            ModeReply { status: -1, switch: None }
        }
    }

    /// Brings the input up in polling mode, with the serial port's interrupt routed.
    pub fn init_input(&mut self) -> (setup: InputSetup)
        ensures
            setup.uart.addr == uart::UART_BASE + uart::REG_MCR,
            setup.uart.value == uart::MCR_DATA_TERMINAL_READY + uart::MCR_REQUEST_TO_SEND
                + uart::MCR_AUX_OUTPUT2,
            setup.plic == plic_setup(),
            setup.switch == mode_switch(MODE_POLLING),
            setup.switch.uart.addr == 0x1000_0001 && setup.switch.uart.value == 0,
            !setup.switch.external_interrupts,
            *final(self) == (Input {
                mode: MODE_POLLING,
                ready: old(self).ready,
                key: old(self).key,
            }),
    {
        let uart = uart::init();
        let plic = plic_init_uart();
        let switch = self.apply_input_mode(MODE_POLLING);
        InputSetup { uart, plic, switch }
    }

    /// Whether the bytes that the serial port holds are to be fetched for a claimed interrupt.
    pub fn drains_uart(&self, irq: u32) -> (drains: bool)
        ensures
            drains == self.collects(irq),
            drains == (self.mode == 1 && irq == 10),
    {
        self.mode == MODE_INTERRUPT && irq == UART_IRQ
    }

    /// Handles a claimed interrupt, 0 being none, and gives the store that completes it.
    ///
    /// `bytes` is what the serial port held, in the order in which it came out; it counts only
    /// where it was to be fetched.
    pub fn handle_external_interrupt(&mut self, irq: u32, bytes: &Vec<u8>) -> (completion: Option<
        Write32,
    >)
        ensures
            *final(self) == if old(self).collects(irq) {
                collect(*old(self), bytes@)
            } else {
                *old(self)
            },
            final(self).mode == old(self).mode,
            old(self).mode == 1 && irq == 10 && bytes@.len() > 0 ==> {
                &&& final(self).ready
                &&& final(self).key == bytes@.last()
            },
            old(self).mode != 1 || irq != 10 || bytes@.len() == 0 ==> *final(self) == *old(self),
            completion is Some <==> irq != 0,
            completion matches Some(write) ==> write.addr == 0x0c20_1004 && write.value == irq,
            completion == if irq != 0 {
                Some(
                    (Write32 {
                        addr: plic().claim_addr(
                            HART_ID as int,
                            IntrTargetPriority::Supervisor,
                        ) as usize,
                        value: irq,
                    }),
                )
            } else {
                None
            },
    {
        if self.drains_uart(irq) {
            let mut i: usize = 0;
            while i < bytes.len()
                invariant
                    i <= bytes@.len(),
                    *self == collect(*old(self), bytes@.take(i as int)),
                decreases bytes@.len() - i,
            {
                self.push_input_key(bytes[i]);
                assert(bytes@.take(i + 1).drop_last() =~= bytes@.take(i as int));
                i += 1;
            }
            assert(bytes@.take(i as int) =~= bytes@);
            proof {
                law_last_byte_waits(*old(self), bytes@);
            }
        }
        if irq != 0 {
            Some(plic_complete(irq))
        } else {
            None
        }
    }
}

/// The stores that route the serial port's interrupt.
pub open spec fn plic_setup() -> PlicSetup {
    PlicSetup {
        supervisor_threshold: Write32 {
            addr: plic().threshold_addr(HART_ID as int, IntrTargetPriority::Supervisor) as usize,
            value: 0,
        },
        machine_threshold: Write32 {
            addr: plic().threshold_addr(HART_ID as int, IntrTargetPriority::Machine) as usize,
            value: 1,
        },
        priority: Write32 { addr: plic().priority_addr(UART_IRQ as int) as usize, value: 1 },
        enable_word: plic().enable_addr(
            HART_ID as int,
            IntrTargetPriority::Supervisor,
            UART_IRQ as int,
        ) as usize,
    }
}

/// The stores that route the serial port's interrupt to supervisor mode.
pub fn plic_init_uart() -> (setup: PlicSetup)
    ensures
        setup == plic_setup(),
        setup.supervisor_threshold.addr == 0x0c20_1000 && setup.supervisor_threshold.value == 0,
        setup.machine_threshold.addr == 0x0c20_0000 && setup.machine_threshold.value == 1,
        setup.priority.addr == 0x0c00_0028 && setup.priority.value == 1,
        setup.enable_word == 0x0c00_2080,
{
    let plic = Plic::new(PLIC_BASE);
    let (enable_word, _) = plic.enable_ptr(
        HART_ID,
        IntrTargetPriority::Supervisor,
        UART_IRQ as usize,
    );
    PlicSetup {
        supervisor_threshold: plic.set_threshold(HART_ID, IntrTargetPriority::Supervisor, 0),
        machine_threshold: plic.set_threshold(HART_ID, IntrTargetPriority::Machine, 1),
        priority: plic.set_priority(UART_IRQ as usize, 1),
        enable_word,
    }
}

/// The store that enables the serial port's interrupt, where `current` is what the word that holds
/// its enable bit shows.
pub fn plic_enable_uart(current: u32) -> (write: Write32)
    ensures
        write.addr == plic_setup().enable_word,
        write.addr == 0x0c00_2080,
        forall|bit: u32|
            #![trigger write.value >> bit]
            bit < 32 ==> (write.value >> bit) & 1 == if bit == UART_IRQ {
                1
            } else {
                (current >> bit) & 1
            },
{
    Plic::new(PLIC_BASE).enable(
        HART_ID,
        IntrTargetPriority::Supervisor,
        UART_IRQ as usize,
        current,
    )
}

/// The register whose read claims an interrupt for the kernel.
pub fn plic_claim() -> (addr: usize)
    ensures
        addr == plic().claim_addr(HART_ID as int, IntrTargetPriority::Supervisor),
        addr == 0x0c20_1004,
{
    Plic::new(PLIC_BASE).claim(HART_ID, IntrTargetPriority::Supervisor)
}

/// The store that completes an interrupt of the kernel's.
pub fn plic_complete(irq: u32) -> (write: Write32)
    ensures
        write.addr == plic().claim_addr(HART_ID as int, IntrTargetPriority::Supervisor),
        write.addr == 0x0c20_1004,
        write.value == irq,
{
    Plic::new(PLIC_BASE).complete(HART_ID, IntrTargetPriority::Supervisor, irq)
}

/// Of the bytes that an interrupt collects only the last one waits afterwards; an interrupt
/// without bytes leaves what waited. The mode stays.
pub proof fn law_last_byte_waits(input: Input, bytes: Seq<u8>)
    ensures
        collect(input, bytes).mode == input.mode,
        bytes.len() == 0 ==> collect(input, bytes) == input,
        bytes.len() > 0 ==> collect(input, bytes).pending() == Some(bytes.last()),
        bytes.len() > 0 ==> collect(input, bytes).ready && collect(input, bytes).key == bytes.last(),
    decreases bytes.len(),
{
    if bytes.len() > 0 {
        law_last_byte_waits(input, bytes.drop_last());
    }
}

/// A key that came in is handed out once: the next request gets it and the one after that nothing.
pub proof fn law_key_is_handed_out_once(input: Input, c: u8)
    ensures
        input.pushed(c).pending() == Some(c),
        input.pushed(c).popped().pending() is None,
        input.pushed(c).mode == input.mode && input.pushed(c).popped().mode == input.mode,
        input.pending() is Some <==> input.ready,
{
}

} // verus!
