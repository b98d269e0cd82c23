//! A cycle-driven emulator core for the DMG handheld: SM83 interpreter, memory-mapped bus,
//! timer, interrupt controller, scanline renderer and frame scheduler.

pub mod alu;
pub mod bits;
pub mod cpu;
pub mod debug;
pub mod exec;
pub mod gameboy;
pub mod instructions;
pub mod interrupt;
pub mod interrupts;
pub mod memory;
pub mod ppu;
pub mod rom;
pub mod timer;
pub mod video_regs;
