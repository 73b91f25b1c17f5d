# x86emu

An x86 PC emulator whose machine is specified and proved with Verus.

The CPU runs 16-bit real mode, 32-bit protected mode and 64-bit long mode, with
two-level, PAE and four-level paging, a TLB, rings and interrupts. Around it
stand the devices of a PC: interrupt controller, timer, keyboard controller,
real-time clock, DMA, IDE disk, PCI bus and VGA text screen, a minimal BIOS, and
loaders for boot sectors, Linux kernels and flat 16- and 64-bit programs.

## How it is put together

- `src/state.rs` holds `State`, the machine as mathematics. Its methods, spread
  over the crate, are the instruction-set semantics: functions from state to
  state.
- `src/cpu.rs` holds `Cpu`, the machine that runs. Every executable function
  promises to take the state it stands for exactly where the corresponding
  function of `State` takes it.
- `src/cpu/` has registers, address translation, operands, the stack, port I/O,
  events between instructions and the main loop.
- `src/instructions/` has the decoder and the executor.
- `src/memory.rs`, `src/paging.rs`, `src/protected.rs` and one file per device
  are the rest of the machine; `src/bios.rs` and `src/boot.rs` start it.
- `src/laws/` states what follows: that a faulting instruction commits nothing,
  that a pop undoes a push and IRET an interrupt, that conditions compare, that
  the TLB changes no translation, and so on.
- `app/` is the program around the library: files, arguments, the environment,
  the host's clock, printing, and floating-point arithmetic, which the library
  asks for by bit pattern (`Fpu::request`).

## Running it

```
x86emu add.bin 0000:0100 100
x86emu --boot boot.bin
x86emu --long long64.bin
x86emu --kernel bzImage
x86emu --kernel-elf kernel.elf --initrd root.bin --cmdline "root=/dev/ram0 rw"
x86emu --mem 8G --kernel-elf64 kernel.elf
```
