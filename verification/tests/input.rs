//! Keyboard input.

use ch4_kernel::input::{
    plic_claim, plic_complete, plic_enable_uart, plic_init_uart, Input, InputSetup, ModeReply,
    ModeSwitch, PlicSetup, MODE_INTERRUPT, MODE_POLLING,
};
use ch4_kernel::mmio::{Write32, Write8};

const COMPLETED: Write32 = Write32 { addr: 0x0c20_1004, value: 10 };

#[test]
fn one_key_waits() {
    let mut input = Input::new();
    assert_eq!(input.pop_input_key(), None);
    input.push_input_key(97);
    input.push_input_key(98);
    assert_eq!(input.pop_input_key(), Some(98));
    assert_eq!(input.pop_input_key(), None);
}

#[test]
fn modes_switch_the_interrupt() {
    let mut input = Input::new();
    let on = ModeSwitch { uart: Write8 { addr: 0x1000_0001, value: 1 }, external_interrupts: true };
    let off = ModeSwitch { uart: Write8 { addr: 0x1000_0001, value: 0 }, external_interrupts: false };
    assert_eq!(input.set_input_mode(1), ModeReply { status: 0, switch: Some(on) });
    assert_eq!(input.mode, MODE_INTERRUPT);
    assert_eq!(input.set_input_mode(2), ModeReply { status: -1, switch: None });
    assert_eq!(input.mode, MODE_INTERRUPT);
    assert_eq!(input.set_input_mode(0), ModeReply { status: 0, switch: Some(off) });
    assert_eq!(input.mode, MODE_POLLING);
    assert_eq!(input.apply_input_mode(7), off);
}

#[test]
fn setup_routes_the_serial_port() {
    let mut input = Input::new();
    let plic = PlicSetup {
        supervisor_threshold: Write32 { addr: 0x0c20_1000, value: 0 },
        machine_threshold: Write32 { addr: 0x0c20_0000, value: 1 },
        priority: Write32 { addr: 0x0c00_0028, value: 1 },
        enable_word: 0x0c00_2080,
    };
    assert_eq!(plic_init_uart(), plic);
    assert_eq!(
        input.init_input(),
        InputSetup {
            uart: Write8 { addr: 0x1000_0004, value: 11 },
            plic,
            switch: ModeSwitch {
                uart: Write8 { addr: 0x1000_0001, value: 0 },
                external_interrupts: false
            },
        }
    );
    assert_eq!(plic_enable_uart(0), Write32 { addr: 0x0c00_2080, value: 0x400 });
    assert_eq!(plic_enable_uart(0x402), Write32 { addr: 0x0c00_2080, value: 0x402 });
    assert_eq!(plic_claim(), 0x0c20_1004);
    assert_eq!(plic_complete(10), COMPLETED);
}

#[test]
fn interrupt_mode_collects_the_last_byte() {
    let mut input = Input::new();
    input.set_input_mode(1);
    assert!(input.drains_uart(10));
    assert!(!input.drains_uart(1));
    assert_eq!(input.handle_external_interrupt(10, &vec![97, 98, 99]), Some(COMPLETED));
    assert_eq!(input.pop_input_key(), Some(99));
    input.push_input_key(100);
    assert_eq!(input.handle_external_interrupt(10, &vec![]), Some(COMPLETED));
    assert_eq!(input.pop_input_key(), Some(100));
}

#[test]
fn other_interrupts_are_only_completed() {
    let mut input = Input::new();
    input.set_input_mode(1);
    assert_eq!(
        input.handle_external_interrupt(3, &vec![97]),
        Some(Write32 { addr: 0x0c20_1004, value: 3 })
    );
    assert_eq!(input.handle_external_interrupt(0, &vec![97]), None);
    assert_eq!(input.pop_input_key(), None);
}

#[test]
fn polling_mode_collects_nothing() {
    let mut input = Input::new();
    assert!(!input.drains_uart(10));
    assert_eq!(input.handle_external_interrupt(10, &vec![97]), Some(COMPLETED));
    assert_eq!(input.handle_external_interrupt(0, &vec![]), None);
    assert_eq!(input.pop_input_key(), None);
}
