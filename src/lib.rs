//! An emulator core for an 8-bit handheld console: the memory bus, the
//! interrupt controller, the processor and the video timing machine.

pub mod fault;
pub mod cart;
pub mod memory;
pub mod interrupt;
pub mod cpu;
pub mod lcd;
pub mod gameboy;
pub mod window;
