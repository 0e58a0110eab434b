//! A small CHIP-8-style virtual machine: a fetch-decode-execute core over a
//! 4096-byte memory, sixteen 8-bit registers, an index register and a call
//! stack. Eight opcodes are implemented; executing a sprite-draw instruction
//! yields a [`DrawAction`] for an external renderer to consume.

mod cpu;
mod instruction;
mod laws;
mod machine;
mod memory;
mod system;

pub use cpu::Cpu;
pub use machine::DrawRequest;
pub use machine::MachineState;
pub use memory::Memory;
pub use instruction::decode_opcode;
pub use instruction::Chip8Error;
pub use instruction::Instruction;
pub use system::DrawAction;
pub use system::System;
