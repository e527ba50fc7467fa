//! An interpreter for the CHIP-8 virtual machine: 4 KiB of memory, sixteen
//! 8-bit registers, a sixteen-level call stack, a 64 x 32 monochrome
//! framebuffer, a sixteen-key pad and two countdown timers.
//!
//! Every operation of the interpreter is stated against a mathematical model
//! of the machine (`machine::Machine`) and proved to follow it.
pub mod isa;
pub mod machine;
pub mod cpu;
pub mod laws;

pub use cpu::C8Cpu;
pub use isa::{Fault, Instr};
