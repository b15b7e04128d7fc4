# ch4_kernel

A small RISC-V kernel: user programs in Sv39 address spaces of their own, a framebuffer that each
program finds at a fixed address, and input from the serial port by polling or by interrupts.

- `src/` is the kernel's logic, verified with Verus. It touches no device and no memory of a
  program: it takes plain values and says what to store, map or answer. Functions whose names start
  with `law_` prove what holds across functions.
- `app/` is the program around it: start-up, registers, page tables, the GPU driver and the
  dispatch of system calls.
- `tests/` runs the library, in part against the crates that it works with.

The saved registers of a thread are kept by `tg_kernel_context`, and program images are read by
`xmas_elf`. What is believed about these crates without proof stands in `src/context.rs` and
`src/elf.rs`.
