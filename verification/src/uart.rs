//! NS16550A serial port.
//!
//! The functions name the register accesses to make: the basic setup, the switch of the receive
//! interrupt, and a read that does not wait.

use crate::mmio::Write8;
use vstd::prelude::*;

verus! {

/// The address of the port's registers.
pub const UART_BASE: usize = 0x1000_0000;

/// The receive buffer, and on writes the transmit register.
pub const REG_RBR_THR: usize = 0x00;

/// The interrupt enable register.
pub const REG_IER: usize = 0x01;

/// The modem control register.
pub const REG_MCR: usize = 0x04;

/// The line status register.
pub const REG_LSR: usize = 0x05;

/// Interrupt enable: received data.
pub const IER_RX_AVAILABLE: u8 = 1;

/// Modem control: data terminal ready.
pub const MCR_DATA_TERMINAL_READY: u8 = 1;

/// Modem control: request to send.
pub const MCR_REQUEST_TO_SEND: u8 = 2;

/// Modem control: auxiliary output, which lets interrupts through.
pub const MCR_AUX_OUTPUT2: u8 = 8;

/// Line status: a received byte waits.
pub const LSR_DATA_AVAILABLE: u8 = 1;

/// The port's interrupt number.
pub const UART_IRQ: u32 = 10;

/// The address of a register.
pub fn reg_ptr(offset: usize) -> (addr: usize)
    requires
        UART_BASE + offset <= usize::MAX,
    ensures
        addr == UART_BASE + offset,
{
    UART_BASE + offset
}

/// The store that puts a byte into a register.
pub fn write_reg(offset: usize, value: u8) -> (write: Write8)
    requires
        UART_BASE + offset <= usize::MAX,
    ensures
        write.addr == UART_BASE + offset,
        write.value == value,
{
    Write8 { addr: reg_ptr(offset), value }
}

/// The store that brings the port into its basic mode: terminal ready, request to send, and
/// interrupts let through.
pub fn init() -> (write: Write8)
    ensures
        write.addr == UART_BASE + REG_MCR,
        write.value == MCR_DATA_TERMINAL_READY + MCR_REQUEST_TO_SEND + MCR_AUX_OUTPUT2,
{
    assert(1u8 | 2u8 | 8u8 == 11u8) by (bit_vector);
    write_reg(REG_MCR, MCR_DATA_TERMINAL_READY | MCR_REQUEST_TO_SEND | MCR_AUX_OUTPUT2)
}

/// The store that switches the receive interrupt.
pub fn set_rx_interrupt(enable: bool) -> (write: Write8)
    ensures
        write.addr == UART_BASE + REG_IER,
        write.value == if enable {
            IER_RX_AVAILABLE
        } else {
            0
        },
{
    let value: u8 = if enable {
        IER_RX_AVAILABLE
    } else {
        0
    };
    write_reg(REG_IER, value)
}

/// Where to read the next byte, given what the line status register shows.
///
/// There is a byte exactly where the lowest bit is set, and it stands in the receive buffer.
pub fn read_nonblocking(lsr: u8) -> (source: Option<usize>)
    ensures
        source == if lsr % 2 == 1 {
            Some((UART_BASE + REG_RBR_THR) as usize)
        } else {
            None
        },
{
    assert((lsr & 1 != 0) == (lsr % 2 == 1)) by (bit_vector);
    if lsr & LSR_DATA_AVAILABLE != 0 {
        Some(reg_ptr(REG_RBR_THR))
    } else {
        None
    }
}

/// The serial port is worked through four byte registers: what is stored to set it up and to switch
/// its interrupt, and where its bytes come from, whatever its status shows besides bit 0.
pub proof fn law_serial_port_registers(
    offset: usize,
    value: u8,
    addr: usize,
    write: Write8,
    setup: Write8,
    enable: bool,
    switch: Write8,
    lsr: u8,
    source: Option<usize>,
)
    requires
        call_ensures(reg_ptr, (offset,), addr),
        call_ensures(write_reg, (offset, value), write),
        call_ensures(init, (), setup),
        call_ensures(set_rx_interrupt, (enable,), switch),
        call_ensures(read_nonblocking, (lsr,), source),
    ensures
        addr == 0x1000_0000 + offset,
        write.addr == addr && write.value == value,
        setup.addr == 0x1000_0004 && setup.value == 11,
        switch.addr == 0x1000_0001,
        enable ==> switch.value == 1,
        !enable ==> switch.value == 0,
        source is Some <==> lsr & 1 == 1,
        source is Some ==> source->0 == 0x1000_0000,
{
    assert((lsr & 1 == 1) == (lsr % 2 == 1)) by (bit_vector);
}

} // verus!
