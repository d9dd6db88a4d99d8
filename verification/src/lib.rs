//! A CHIP-8 interpreter core: the fetch-decode-execute engine, its
//! instruction semantics, and the entry points a frontend drives it with.
pub mod cpu;
mod entropy;
pub mod input;
pub mod instructions;
pub mod laws;
pub mod machine;
pub mod opcode;
pub mod screen;
pub mod sprite;

pub use cpu::Cpu;
pub use input::{InputEvent, Key};
pub use machine::{Fault, StepReport};
pub use opcode::Opcode;
