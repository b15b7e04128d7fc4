//! The decisions of a small RISC-V kernel with paged address spaces, and proofs about them.
//!
//! Nothing here touches the machine. Functions take plain values, registers that were read and
//! page ranges that are mapped among them, and give back plain values: the store to perform, the
//! pages to map, the number to answer a call with. The program around the library performs them.
//!
//! - [`word`], [`mmio`]: machine words, and stores to device registers.
//! - [`flags`], [`sv39`]: page attributes, pages and page ranges.
//! - [`uart`], [`plic`], [`input`]: the serial port, its interrupt, and the keys that arrive by it.
//! - [`gpu`], [`screen`]: the graphics device, and its framebuffer in a program's memory.
//! - [`space`]: what the kernel maps for itself.
//! - [`isolation`]: what address spaces have in common, and what they do not.
//! - [`context`], [`process`]: saved registers and processes.
//! - [`elf`], [`loader`]: program images, and how programs are loaded from them.
//! - [`schedule`]: what happens when a process traps.
//! - [`syscall`], [`memory`]: the system calls.
//!
//! The proof functions whose names start with `law_` state what holds across functions.

pub mod context;
pub mod elf;
pub mod flags;
pub mod gpu;
pub mod input;
pub mod isolation;
pub mod loader;
pub mod memory;
pub mod mmio;
pub mod plic;
pub mod process;
pub mod schedule;
pub mod screen;
pub mod space;
pub mod sv39;
pub mod syscall;
pub mod uart;
pub mod word;
