//! A Game Boy emulator core: the register file, the memory bus with its
//! bank controller, the instruction set and the background renderer.
use vstd::prelude::*;

pub mod cartridge;
pub mod console;
pub mod cpu;
pub mod isa;
pub mod laws;
pub mod laws_alu;
pub mod laws_bus;
pub mod laws_cpu;
pub mod laws_decode;
pub mod machine;
pub mod registers;
pub mod screen;

pub use console::Gameboy;

verus! {
} // verus!
