//! A Game Boy emulator core: memory map, CPU instruction set, timer and
//! picture processing, with their behaviour stated as contracts.

pub mod bits;
pub mod mmu;
pub mod system;
pub mod timer;
pub mod emulator;
pub mod cpu;
pub mod gpu;
