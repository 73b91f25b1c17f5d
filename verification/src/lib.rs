//! x86emu: an x86 PC emulator whose machine is specified and proved.
//!
//! The executable machine is [`cpu::Cpu`]; what it stands for is
//! [`state::State`], a mathematical machine state whose methods are the
//! instruction-set semantics. Every executable function promises that it
//! takes the abstract state exactly where the corresponding specification
//! function takes it.

pub mod bios;
pub mod bits;
pub mod boot;
pub mod cli;
pub mod cmos;
pub mod cpu;
pub mod dma;
pub mod float;
pub mod fpu;
pub mod ide;
pub mod instructions;
pub mod kbd;
pub mod laws;
pub mod memory;
pub mod modrm;
pub mod paging;
pub mod pci;
pub mod pic;
pub mod pit;
pub mod protected;
pub mod state;
pub mod text;
pub mod vga;

pub use cpu::Cpu;
pub use memory::Memory;
