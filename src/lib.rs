pub mod types;
pub mod alu;
pub mod memory;
pub mod bus;
pub mod instructions;
pub mod decode;
pub mod csr;
pub mod mstatus;
pub mod cpu;

pub use bus::Bus;
pub use cpu::Cpu;
pub use csr::Csr;
pub use mstatus::{Extensions, Mstatus};
pub use decode::{decode, decode_compressed};
pub use instructions::{Instruction, InstructionContext};
pub use memory::Memory;
pub use types::{Address, Exception, Imm, RawInstruction, RawShortInstruction, RegIdx, Shamt, MEMORY_BASE, XLEN};
