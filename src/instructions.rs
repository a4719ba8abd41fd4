use vstd::prelude::*;
use crate::types::{Imm, RegIdx, Shamt};

verus! {

/// A decoded instruction: one variant per operation, carrying only its operands.
#[allow(non_camel_case_types)]
#[derive(Debug, Clone, Copy, PartialEq, Eq, Structural)]
pub enum Instruction {
    // Base integer register-register operations.
    ADD { rd: RegIdx, rs1: RegIdx, rs2: RegIdx },
    SUB { rd: RegIdx, rs1: RegIdx, rs2: RegIdx },
    SLL { rd: RegIdx, rs1: RegIdx, rs2: RegIdx },
    SLT { rd: RegIdx, rs1: RegIdx, rs2: RegIdx },
    SLTU { rd: RegIdx, rs1: RegIdx, rs2: RegIdx },
    XOR { rd: RegIdx, rs1: RegIdx, rs2: RegIdx },
    SRL { rd: RegIdx, rs1: RegIdx, rs2: RegIdx },
    SRA { rd: RegIdx, rs1: RegIdx, rs2: RegIdx },
    OR { rd: RegIdx, rs1: RegIdx, rs2: RegIdx },
    AND { rd: RegIdx, rs1: RegIdx, rs2: RegIdx },
    // Multiply and divide.
    MUL { rd: RegIdx, rs1: RegIdx, rs2: RegIdx },
    MULH { rd: RegIdx, rs1: RegIdx, rs2: RegIdx },
    MULHSU { rd: RegIdx, rs1: RegIdx, rs2: RegIdx },
    MULHU { rd: RegIdx, rs1: RegIdx, rs2: RegIdx },
    DIV { rd: RegIdx, rs1: RegIdx, rs2: RegIdx },
    DIVU { rd: RegIdx, rs1: RegIdx, rs2: RegIdx },
    REM { rd: RegIdx, rs1: RegIdx, rs2: RegIdx },
    REMU { rd: RegIdx, rs1: RegIdx, rs2: RegIdx },
    // Word-sized register-register operations.
    ADDW { rd: RegIdx, rs1: RegIdx, rs2: RegIdx },
    SUBW { rd: RegIdx, rs1: RegIdx, rs2: RegIdx },
    SLLW { rd: RegIdx, rs1: RegIdx, rs2: RegIdx },
    SRLW { rd: RegIdx, rs1: RegIdx, rs2: RegIdx },
    SRAW { rd: RegIdx, rs1: RegIdx, rs2: RegIdx },
    // Word-sized multiply and divide.
    MULW { rd: RegIdx, rs1: RegIdx, rs2: RegIdx },
    DIVW { rd: RegIdx, rs1: RegIdx, rs2: RegIdx },
    DIVUW { rd: RegIdx, rs1: RegIdx, rs2: RegIdx },
    REMW { rd: RegIdx, rs1: RegIdx, rs2: RegIdx },
    REMUW { rd: RegIdx, rs1: RegIdx, rs2: RegIdx },
    // Register-immediate operations.
    ADDI { rd: RegIdx, rs1: RegIdx, imm: Imm },
    SLTI { rd: RegIdx, rs1: RegIdx, imm: Imm },
    SLTIU { rd: RegIdx, rs1: RegIdx, imm: Imm },
    XORI { rd: RegIdx, rs1: RegIdx, imm: Imm },
    ORI { rd: RegIdx, rs1: RegIdx, imm: Imm },
    ANDI { rd: RegIdx, rs1: RegIdx, imm: Imm },
    SLLI { rd: RegIdx, rs1: RegIdx, shamt: Shamt },
    SRLI { rd: RegIdx, rs1: RegIdx, shamt: Shamt },
    SRAI { rd: RegIdx, rs1: RegIdx, shamt: Shamt },
    // Word-sized register-immediate operations.
    ADDIW { rd: RegIdx, rs1: RegIdx, imm: Imm },
    SLLIW { rd: RegIdx, rs1: RegIdx, shamt: Shamt },
    SRLIW { rd: RegIdx, rs1: RegIdx, shamt: Shamt },
    SRAIW { rd: RegIdx, rs1: RegIdx, shamt: Shamt },
    // Loads.
    LB { rd: RegIdx, rs1: RegIdx, offset: Imm },
    LH { rd: RegIdx, rs1: RegIdx, offset: Imm },
    LW { rd: RegIdx, rs1: RegIdx, offset: Imm },
    LBU { rd: RegIdx, rs1: RegIdx, offset: Imm },
    LHU { rd: RegIdx, rs1: RegIdx, offset: Imm },
    LD { rd: RegIdx, rs1: RegIdx, offset: Imm },
    LWU { rd: RegIdx, rs1: RegIdx, offset: Imm },
    // Stores.
    SB { rs1: RegIdx, rs2: RegIdx, offset: Imm },
    SH { rs1: RegIdx, rs2: RegIdx, offset: Imm },
    SW { rs1: RegIdx, rs2: RegIdx, offset: Imm },
    SD { rs1: RegIdx, rs2: RegIdx, offset: Imm },
    // Conditional branches.
    BEQ { rs1: RegIdx, rs2: RegIdx, offset: Imm },
    BNE { rs1: RegIdx, rs2: RegIdx, offset: Imm },
    BLT { rs1: RegIdx, rs2: RegIdx, offset: Imm },
    BGE { rs1: RegIdx, rs2: RegIdx, offset: Imm },
    BLTU { rs1: RegIdx, rs2: RegIdx, offset: Imm },
    BGEU { rs1: RegIdx, rs2: RegIdx, offset: Imm },
    // Upper immediates.
    LUI { rd: RegIdx, imm: Imm },
    AUIPC { rd: RegIdx, imm: Imm },
    // Jumps.
    JAL { rd: RegIdx, offset: Imm },
    JALR { rd: RegIdx, rs1: RegIdx, offset: Imm },
    // System.
    ECALL,
    EBREAK,
    CSRRW { rd: RegIdx, rs1: RegIdx, csr: u16 },
    CSRRS { rd: RegIdx, rs1: RegIdx, csr: u16 },
    CSRRC { rd: RegIdx, rs1: RegIdx, csr: u16 },
    CSRRWI { rd: RegIdx, imm: u8, csr: u16 },
    CSRRSI { rd: RegIdx, imm: u8, csr: u16 },
    CSRRCI { rd: RegIdx, imm: u8, csr: u16 },
}

impl Instruction {
    /// Register indices name one of the 32 registers, shift amounts fit the operand
    /// width, CSR addresses have 12 bits and CSR immediates 5.
    pub open spec fn wf(self) -> bool {
        match self {
            Instruction::ADD { rd, rs1, rs2 }
            | Instruction::SUB { rd, rs1, rs2 }
            | Instruction::SLL { rd, rs1, rs2 }
            | Instruction::SLT { rd, rs1, rs2 }
            | Instruction::SLTU { rd, rs1, rs2 }
            | Instruction::XOR { rd, rs1, rs2 }
            | Instruction::SRL { rd, rs1, rs2 }
            | Instruction::SRA { rd, rs1, rs2 }
            | Instruction::OR { rd, rs1, rs2 }
            | Instruction::AND { rd, rs1, rs2 }
            | Instruction::MUL { rd, rs1, rs2 }
            | Instruction::MULH { rd, rs1, rs2 }
            | Instruction::MULHSU { rd, rs1, rs2 }
            | Instruction::MULHU { rd, rs1, rs2 }
            | Instruction::DIV { rd, rs1, rs2 }
            | Instruction::DIVU { rd, rs1, rs2 }
            | Instruction::REM { rd, rs1, rs2 }
            | Instruction::REMU { rd, rs1, rs2 }
            | Instruction::ADDW { rd, rs1, rs2 }
            | Instruction::SUBW { rd, rs1, rs2 }
            | Instruction::SLLW { rd, rs1, rs2 }
            | Instruction::SRLW { rd, rs1, rs2 }
            | Instruction::SRAW { rd, rs1, rs2 }
            | Instruction::MULW { rd, rs1, rs2 }
            | Instruction::DIVW { rd, rs1, rs2 }
            | Instruction::DIVUW { rd, rs1, rs2 }
            | Instruction::REMW { rd, rs1, rs2 }
            | Instruction::REMUW { rd, rs1, rs2 } => rd < 32 && rs1 < 32 && rs2 < 32,
            Instruction::ADDI { rd, rs1, .. }
            | Instruction::SLTI { rd, rs1, .. }
            | Instruction::SLTIU { rd, rs1, .. }
            | Instruction::XORI { rd, rs1, .. }
            | Instruction::ORI { rd, rs1, .. }
            | Instruction::ANDI { rd, rs1, .. }
            | Instruction::ADDIW { rd, rs1, .. }
            | Instruction::LB { rd, rs1, .. }
            | Instruction::LH { rd, rs1, .. }
            | Instruction::LW { rd, rs1, .. }
            | Instruction::LBU { rd, rs1, .. }
            | Instruction::LHU { rd, rs1, .. }
            | Instruction::LD { rd, rs1, .. }
            | Instruction::LWU { rd, rs1, .. }
            | Instruction::JALR { rd, rs1, .. } => rd < 32 && rs1 < 32,
            Instruction::SLLI { rd, rs1, shamt }
            | Instruction::SRLI { rd, rs1, shamt }
            | Instruction::SRAI { rd, rs1, shamt } => rd < 32 && rs1 < 32 && shamt < 64,
            Instruction::SLLIW { rd, rs1, shamt }
            | Instruction::SRLIW { rd, rs1, shamt }
            | Instruction::SRAIW { rd, rs1, shamt } => rd < 32 && rs1 < 32 && shamt < 32,
            Instruction::SB { rs1, rs2, .. }
            | Instruction::SH { rs1, rs2, .. }
            | Instruction::SW { rs1, rs2, .. }
            | Instruction::SD { rs1, rs2, .. }
            | Instruction::BEQ { rs1, rs2, .. }
            | Instruction::BNE { rs1, rs2, .. }
            | Instruction::BLT { rs1, rs2, .. }
            | Instruction::BGE { rs1, rs2, .. }
            | Instruction::BLTU { rs1, rs2, .. }
            | Instruction::BGEU { rs1, rs2, .. } => rs1 < 32 && rs2 < 32,
            Instruction::LUI { rd, .. }
            | Instruction::AUIPC { rd, .. }
            | Instruction::JAL { rd, .. } => rd < 32,
            Instruction::ECALL | Instruction::EBREAK => true,
            Instruction::CSRRW { rd, rs1, csr }
            | Instruction::CSRRS { rd, rs1, csr }
            | Instruction::CSRRC { rd, rs1, csr } => rd < 32 && rs1 < 32 && csr < 0x1000,
            Instruction::CSRRWI { rd, imm, csr }
            | Instruction::CSRRSI { rd, imm, csr }
            | Instruction::CSRRCI { rd, imm, csr } => rd < 32 && imm < 32 && csr < 0x1000,
        }
    }
}

/// A decoded instruction together with the width in bytes (2 or 4) of the parcel it
/// came from, by which the program counter advances unless the instruction sets it.
#[derive(Debug, Clone, Copy, PartialEq, Eq, Structural)]
pub struct InstructionContext {
    pub instruction: Instruction,
    pub next_pc: u64,
}

} // verus!
