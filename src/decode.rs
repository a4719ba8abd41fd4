use vstd::prelude::*;
use crate::instructions::Instruction;
use crate::types::{Exception, RawInstruction, RawShortInstruction};

verus! {

/// Bits `hi` down to `lo` of `v`, moved down to bit 0.
pub open spec fn bits(v: u64, hi: u64, lo: u64) -> u64 {
    (v >> lo) & !(0xFFFF_FFFF_FFFF_FFFFu64 << ((hi - lo + 1) as u64))
}

/// The `width`-bit value `v` with its top bit copied into every higher bit, read as
/// a signed number.
pub open spec fn sign_extend(v: u64, width: u64) -> i64 {
    (if (v >> (width - 1)) & 1 == 1 {
        v | (0xFFFF_FFFF_FFFF_FFFFu64 << width)
    } else {
        v
    }) as i64
}

/// Major opcode, bits 6..0.
pub open spec fn opcode(p: u32) -> u64 {
    bits(p as u64, 6, 0)
}

/// Destination register, bits 11..7.
pub open spec fn rd_of(p: u32) -> u8 {
    bits(p as u64, 11, 7) as u8
}

/// First source register, bits 19..15.
pub open spec fn rs1_of(p: u32) -> u8 {
    bits(p as u64, 19, 15) as u8
}

/// Second source register, bits 24..20.
pub open spec fn rs2_of(p: u32) -> u8 {
    bits(p as u64, 24, 20) as u8
}

/// Minor opcode, bits 14..12.
pub open spec fn funct3(p: u32) -> u64 {
    bits(p as u64, 14, 12)
}

/// Bits 31..25.
pub open spec fn funct7(p: u32) -> u64 {
    bits(p as u64, 31, 25)
}

/// I-type immediate: bits 31..20, sign-extended.
pub open spec fn imm_i(p: u32) -> i64 {
    sign_extend(bits(p as u64, 31, 20), 12)
}

/// S-type immediate: bits 31..25 above bits 11..7, sign-extended.
pub open spec fn imm_s(p: u32) -> i64 {
    let v = p as u64;
    sign_extend(bits(v, 31, 25) << 5 | bits(v, 11, 7), 12)
}

/// B-type offset: bit 31, bit 7, bits 30..25, bits 11..8 and a zero bit, sign-extended.
pub open spec fn imm_b(p: u32) -> i64 {
    let v = p as u64;
    sign_extend(bits(v, 31, 31) << 12 | bits(v, 7, 7) << 11 | bits(v, 30, 25) << 5 | bits(v, 11, 8) << 1, 13)
}

/// U-type immediate: bits 31..12 in place over twelve zero bits, sign-extended from bit 31.
pub open spec fn imm_u(p: u32) -> i64 {
    sign_extend(bits(p as u64, 31, 12) << 12, 32)
}

/// J-type offset: bit 31, bits 19..12, bit 20, bits 30..21 and a zero bit, sign-extended.
pub open spec fn imm_j(p: u32) -> i64 {
    let v = p as u64;
    sign_extend(bits(v, 31, 31) << 20 | bits(v, 19, 12) << 12 | bits(v, 20, 20) << 11 | bits(v, 30, 21) << 1, 21)
}

/// The instruction that a 32-bit parcel encodes, if any row of the opcode table matches.
pub open spec fn decoded(p: u32) -> Option<Instruction> {
    let rd = rd_of(p);
    let rs1 = rs1_of(p);
    let rs2 = rs2_of(p);
    let f3 = funct3(p);
    let f7 = funct7(p);
    let v = p as u64;
    match opcode(p) {
        0b0110011 => match (f7, f3) {
            (0b0000000, 0b000) => Some(Instruction::ADD { rd, rs1, rs2 }),
            (0b0100000, 0b000) => Some(Instruction::SUB { rd, rs1, rs2 }),
            (0b0000000, 0b001) => Some(Instruction::SLL { rd, rs1, rs2 }),
            (0b0000000, 0b010) => Some(Instruction::SLT { rd, rs1, rs2 }),
            (0b0000000, 0b011) => Some(Instruction::SLTU { rd, rs1, rs2 }),
            (0b0000000, 0b100) => Some(Instruction::XOR { rd, rs1, rs2 }),
            (0b0000000, 0b101) => Some(Instruction::SRL { rd, rs1, rs2 }),
            (0b0100000, 0b101) => Some(Instruction::SRA { rd, rs1, rs2 }),
            (0b0000000, 0b110) => Some(Instruction::OR { rd, rs1, rs2 }),
            (0b0000000, 0b111) => Some(Instruction::AND { rd, rs1, rs2 }),
            (0b0000001, 0b000) => Some(Instruction::MUL { rd, rs1, rs2 }),
            (0b0000001, 0b001) => Some(Instruction::MULH { rd, rs1, rs2 }),
            (0b0000001, 0b010) => Some(Instruction::MULHSU { rd, rs1, rs2 }),
            (0b0000001, 0b011) => Some(Instruction::MULHU { rd, rs1, rs2 }),
            (0b0000001, 0b100) => Some(Instruction::DIV { rd, rs1, rs2 }),
            (0b0000001, 0b101) => Some(Instruction::DIVU { rd, rs1, rs2 }),
            (0b0000001, 0b110) => Some(Instruction::REM { rd, rs1, rs2 }),
            (0b0000001, 0b111) => Some(Instruction::REMU { rd, rs1, rs2 }),
            _ => None,
        },
        0b0111011 => match (f7, f3) {
            (0b0000000, 0b000) => Some(Instruction::ADDW { rd, rs1, rs2 }),
            (0b0100000, 0b000) => Some(Instruction::SUBW { rd, rs1, rs2 }),
            (0b0000000, 0b001) => Some(Instruction::SLLW { rd, rs1, rs2 }),
            (0b0000000, 0b101) => Some(Instruction::SRLW { rd, rs1, rs2 }),
            (0b0100000, 0b101) => Some(Instruction::SRAW { rd, rs1, rs2 }),
            (0b0000001, 0b000) => Some(Instruction::MULW { rd, rs1, rs2 }),
            (0b0000001, 0b100) => Some(Instruction::DIVW { rd, rs1, rs2 }),
            (0b0000001, 0b101) => Some(Instruction::DIVUW { rd, rs1, rs2 }),
            (0b0000001, 0b110) => Some(Instruction::REMW { rd, rs1, rs2 }),
            (0b0000001, 0b111) => Some(Instruction::REMUW { rd, rs1, rs2 }),
            _ => None,
        },
        0b0010011 => {
            let imm = imm_i(p);
            let shamt = bits(v, 25, 20) as u32;
            match f3 {
                0b000 => Some(Instruction::ADDI { rd, rs1, imm }),
                0b010 => Some(Instruction::SLTI { rd, rs1, imm }),
                0b011 => Some(Instruction::SLTIU { rd, rs1, imm }),
                0b100 => Some(Instruction::XORI { rd, rs1, imm }),
                0b110 => Some(Instruction::ORI { rd, rs1, imm }),
                0b111 => Some(Instruction::ANDI { rd, rs1, imm }),
                0b001 => Some(Instruction::SLLI { rd, rs1, shamt }),
                _ => if bits(v, 30, 30) == 0 {
                    Some(Instruction::SRLI { rd, rs1, shamt })
                } else {
                    Some(Instruction::SRAI { rd, rs1, shamt })
                },
            }
        },
        0b0011011 => {
            let shamt = bits(v, 24, 20) as u32;
            match (f7, f3) {
                (_, 0b000) => Some(Instruction::ADDIW { rd, rs1, imm: imm_i(p) }),
                (_, 0b001) => Some(Instruction::SLLIW { rd, rs1, shamt }),
                (0b0000000, 0b101) => Some(Instruction::SRLIW { rd, rs1, shamt }),
                (0b0100000, 0b101) => Some(Instruction::SRAIW { rd, rs1, shamt }),
                _ => None,
            }
        },
        0b0000011 => {
            let offset = imm_i(p);
            match f3 {
                0b000 => Some(Instruction::LB { rd, rs1, offset }),
                0b001 => Some(Instruction::LH { rd, rs1, offset }),
                0b010 => Some(Instruction::LW { rd, rs1, offset }),
                0b011 => Some(Instruction::LD { rd, rs1, offset }),
                0b100 => Some(Instruction::LBU { rd, rs1, offset }),
                0b101 => Some(Instruction::LHU { rd, rs1, offset }),
                0b110 => Some(Instruction::LWU { rd, rs1, offset }),
                _ => None,
            }
        },
        0b0100011 => {
            let offset = imm_s(p);
            match f3 {
                0b000 => Some(Instruction::SB { rs1, rs2, offset }),
                0b001 => Some(Instruction::SH { rs1, rs2, offset }),
                0b010 => Some(Instruction::SW { rs1, rs2, offset }),
                0b011 => Some(Instruction::SD { rs1, rs2, offset }),
                _ => None,
            }
        },
        0b1100011 => {
            let offset = imm_b(p);
            match f3 {
                0b000 => Some(Instruction::BEQ { rs1, rs2, offset }),
                0b001 => Some(Instruction::BNE { rs1, rs2, offset }),
                0b100 => Some(Instruction::BLT { rs1, rs2, offset }),
                0b101 => Some(Instruction::BGE { rs1, rs2, offset }),
                0b110 => Some(Instruction::BLTU { rs1, rs2, offset }),
                0b111 => Some(Instruction::BGEU { rs1, rs2, offset }),
                _ => None,
            }
        },
        0b0110111 => Some(Instruction::LUI { rd, imm: imm_u(p) }),
        0b0010111 => Some(Instruction::AUIPC { rd, imm: imm_u(p) }),
        0b1101111 => Some(Instruction::JAL { rd, offset: imm_j(p) }),
        0b1100111 => if f3 == 0 {
            Some(Instruction::JALR { rd, rs1, offset: imm_i(p) })
        } else {
            None
        },
        0b1110011 => {
            let csr = bits(v, 31, 20) as u16;
            let zimm = rs1;
            match f3 {
                0b000 => if csr == 0 {
                    Some(Instruction::ECALL)
                } else if csr == 1 {
                    Some(Instruction::EBREAK)
                } else {
                    None
                },
                0b001 => Some(Instruction::CSRRW { rd, rs1, csr }),
                0b010 => Some(Instruction::CSRRS { rd, rs1, csr }),
                0b011 => Some(Instruction::CSRRC { rd, rs1, csr }),
                0b101 => Some(Instruction::CSRRWI { rd, imm: zimm, csr }),
                0b110 => Some(Instruction::CSRRSI { rd, imm: zimm, csr }),
                0b111 => Some(Instruction::CSRRCI { rd, imm: zimm, csr }),
                _ => None,
            }
        },
        _ => None,
    }
}

fn get_bits(v: u64, hi: u64, lo: u64) -> (r: u64)
    requires
        lo <= hi < 63,
    ensures
        r == bits(v, hi, lo),
        r < 0x8000_0000_0000_0000,
        hi - lo < 12 ==> r < 0x1000,
        hi - lo < 7 ==> r < 0x80,
        hi - lo < 6 ==> r < 0x40,
        hi - lo < 5 ==> r < 0x20,
        hi - lo < 3 ==> r < 0x8,
        hi == lo ==> r < 2,
{
    let r = (v >> lo) & !(0xFFFF_FFFF_FFFF_FFFFu64 << ((hi - lo + 1) as u64));
    assert(r < 0x8000_0000_0000_0000 && (hi - lo < 12 ==> r < 0x1000) && (hi - lo < 7 ==> r < 0x80)
        && (hi - lo < 6 ==> r < 0x40) && (hi - lo < 5 ==> r < 0x20) && (hi - lo < 3 ==> r < 0x8)
        && (hi == lo ==> r < 2)) by (bit_vector)
        requires
            r == (v >> lo) & !(0xFFFF_FFFF_FFFF_FFFFu64 << ((hi - lo + 1) as u64)),
            lo <= hi < 63,
    ;
    r
}

fn sign_extend_exec(v: u64, width: u64) -> (r: i64)
    requires
        0 < width < 64,
    ensures
        r == sign_extend(v, width),
{
    let x = if (v >> (width - 1)) & 1 == 1 {
        v | (0xFFFF_FFFF_FFFF_FFFFu64 << width)
    } else {
        v
    };
    x as i64
}

/// What decoding a 32-bit parcel yields: the instruction, or a fault that carries
/// the parcel.
pub open spec fn decode_result(p: u32) -> Result<Instruction, Exception> {
    match decoded(p) {
        Some(i) => Ok(i),
        None => Err(Exception::UnknownInstruction(p)),
    }
}

fn field_imm_i(p: u32) -> (r: i64)
    ensures
        r == imm_i(p),
{
    sign_extend_exec(get_bits(p as u64, 31, 20), 12)
}

fn field_imm_s(p: u32) -> (r: i64)
    ensures
        r == imm_s(p),
{
    let v = p as u64;
    sign_extend_exec(get_bits(v, 31, 25) << 5 | get_bits(v, 11, 7), 12)
}

fn field_imm_b(p: u32) -> (r: i64)
    ensures
        r == imm_b(p),
{
    let v = p as u64;
    sign_extend_exec(
        get_bits(v, 31, 31) << 12 | get_bits(v, 7, 7) << 11 | get_bits(v, 30, 25) << 5 | get_bits(v, 11, 8) << 1,
        13,
    )
}

fn field_imm_u(p: u32) -> (r: i64)
    ensures
        r == imm_u(p),
{
    sign_extend_exec(get_bits(p as u64, 31, 12) << 12, 32)
}

fn field_imm_j(p: u32) -> (r: i64)
    ensures
        r == imm_j(p),
{
    let v = p as u64;
    sign_extend_exec(
        get_bits(v, 31, 31) << 20 | get_bits(v, 19, 12) << 12 | get_bits(v, 20, 20) << 11 | get_bits(v, 30, 21) << 1,
        21,
    )
}

/// Decodes a 32-bit parcel.
pub fn decode(instruction: RawInstruction) -> (r: Result<Instruction, Exception>)
    ensures
        r == decode_result(instruction),
        r matches Ok(i) ==> i.wf(),
{
    let p = instruction;
    let v = p as u64;
    let opcode = get_bits(v, 6, 0);
    let rd = get_bits(v, 11, 7) as u8;
    let rs1 = get_bits(v, 19, 15) as u8;
    let rs2 = get_bits(v, 24, 20) as u8;
    let f3 = get_bits(v, 14, 12);
    let f7 = get_bits(v, 31, 25);
    let found = match opcode {
        0b0110011 => match (f7, f3) {
            (0b0000000, 0b000) => Some(Instruction::ADD { rd, rs1, rs2 }),
            (0b0100000, 0b000) => Some(Instruction::SUB { rd, rs1, rs2 }),
            (0b0000000, 0b001) => Some(Instruction::SLL { rd, rs1, rs2 }),
            (0b0000000, 0b010) => Some(Instruction::SLT { rd, rs1, rs2 }),
            (0b0000000, 0b011) => Some(Instruction::SLTU { rd, rs1, rs2 }),
            (0b0000000, 0b100) => Some(Instruction::XOR { rd, rs1, rs2 }),
            (0b0000000, 0b101) => Some(Instruction::SRL { rd, rs1, rs2 }),
            (0b0100000, 0b101) => Some(Instruction::SRA { rd, rs1, rs2 }),
            (0b0000000, 0b110) => Some(Instruction::OR { rd, rs1, rs2 }),
            (0b0000000, 0b111) => Some(Instruction::AND { rd, rs1, rs2 }),
            (0b0000001, 0b000) => Some(Instruction::MUL { rd, rs1, rs2 }),
            (0b0000001, 0b001) => Some(Instruction::MULH { rd, rs1, rs2 }),
            (0b0000001, 0b010) => Some(Instruction::MULHSU { rd, rs1, rs2 }),
            (0b0000001, 0b011) => Some(Instruction::MULHU { rd, rs1, rs2 }),
            (0b0000001, 0b100) => Some(Instruction::DIV { rd, rs1, rs2 }),
            (0b0000001, 0b101) => Some(Instruction::DIVU { rd, rs1, rs2 }),
            (0b0000001, 0b110) => Some(Instruction::REM { rd, rs1, rs2 }),
            (0b0000001, 0b111) => Some(Instruction::REMU { rd, rs1, rs2 }),
            _ => None,
        },
        0b0111011 => match (f7, f3) {
            (0b0000000, 0b000) => Some(Instruction::ADDW { rd, rs1, rs2 }),
            (0b0100000, 0b000) => Some(Instruction::SUBW { rd, rs1, rs2 }),
            (0b0000000, 0b001) => Some(Instruction::SLLW { rd, rs1, rs2 }),
            (0b0000000, 0b101) => Some(Instruction::SRLW { rd, rs1, rs2 }),
            (0b0100000, 0b101) => Some(Instruction::SRAW { rd, rs1, rs2 }),
            (0b0000001, 0b000) => Some(Instruction::MULW { rd, rs1, rs2 }),
            (0b0000001, 0b100) => Some(Instruction::DIVW { rd, rs1, rs2 }),
            (0b0000001, 0b101) => Some(Instruction::DIVUW { rd, rs1, rs2 }),
            (0b0000001, 0b110) => Some(Instruction::REMW { rd, rs1, rs2 }),
            (0b0000001, 0b111) => Some(Instruction::REMUW { rd, rs1, rs2 }),
            _ => None,
        },
        0b0010011 => {
            let imm = field_imm_i(p);
            let shamt = get_bits(v, 25, 20) as u32;
            match f3 {
                0b000 => Some(Instruction::ADDI { rd, rs1, imm }),
                0b010 => Some(Instruction::SLTI { rd, rs1, imm }),
                0b011 => Some(Instruction::SLTIU { rd, rs1, imm }),
                0b100 => Some(Instruction::XORI { rd, rs1, imm }),
                0b110 => Some(Instruction::ORI { rd, rs1, imm }),
                0b111 => Some(Instruction::ANDI { rd, rs1, imm }),
                0b001 => Some(Instruction::SLLI { rd, rs1, shamt }),
                _ => if get_bits(v, 30, 30) == 0 {
                    Some(Instruction::SRLI { rd, rs1, shamt })
                } else {
                    Some(Instruction::SRAI { rd, rs1, shamt })
                },
            }
        },
        0b0011011 => {
            let shamt = get_bits(v, 24, 20) as u32;
            match (f7, f3) {
                (_, 0b000) => Some(Instruction::ADDIW { rd, rs1, imm: field_imm_i(p) }),
                (_, 0b001) => Some(Instruction::SLLIW { rd, rs1, shamt }),
                (0b0000000, 0b101) => Some(Instruction::SRLIW { rd, rs1, shamt }),
                (0b0100000, 0b101) => Some(Instruction::SRAIW { rd, rs1, shamt }),
                _ => None,
            }
        },
        0b0000011 => {
            let offset = field_imm_i(p);
            match f3 {
                0b000 => Some(Instruction::LB { rd, rs1, offset }),
                0b001 => Some(Instruction::LH { rd, rs1, offset }),
                0b010 => Some(Instruction::LW { rd, rs1, offset }),
                0b011 => Some(Instruction::LD { rd, rs1, offset }),
                0b100 => Some(Instruction::LBU { rd, rs1, offset }),
                0b101 => Some(Instruction::LHU { rd, rs1, offset }),
                0b110 => Some(Instruction::LWU { rd, rs1, offset }),
                _ => None,
            }
        },
        0b0100011 => {
            let offset = field_imm_s(p);
            match f3 {
                0b000 => Some(Instruction::SB { rs1, rs2, offset }),
                0b001 => Some(Instruction::SH { rs1, rs2, offset }),
                0b010 => Some(Instruction::SW { rs1, rs2, offset }),
                0b011 => Some(Instruction::SD { rs1, rs2, offset }),
                _ => None,
            }
        },
        0b1100011 => {
            let offset = field_imm_b(p);
            match f3 {
                0b000 => Some(Instruction::BEQ { rs1, rs2, offset }),
                0b001 => Some(Instruction::BNE { rs1, rs2, offset }),
                0b100 => Some(Instruction::BLT { rs1, rs2, offset }),
                0b101 => Some(Instruction::BGE { rs1, rs2, offset }),
                0b110 => Some(Instruction::BLTU { rs1, rs2, offset }),
                0b111 => Some(Instruction::BGEU { rs1, rs2, offset }),
                _ => None,
            }
        },
        0b0110111 => Some(Instruction::LUI { rd, imm: field_imm_u(p) }),
        0b0010111 => Some(Instruction::AUIPC { rd, imm: field_imm_u(p) }),
        0b1101111 => Some(Instruction::JAL { rd, offset: field_imm_j(p) }),
        0b1100111 => if f3 == 0 {
            Some(Instruction::JALR { rd, rs1, offset: field_imm_i(p) })
        } else {
            None
        },
        0b1110011 => {
            let csr = get_bits(v, 31, 20) as u16;
            let zimm = rs1;
            match f3 {
                0b000 => if csr == 0 {
                    Some(Instruction::ECALL)
                } else if csr == 1 {
                    Some(Instruction::EBREAK)
                } else {
                    None
                },
                0b001 => Some(Instruction::CSRRW { rd, rs1, csr }),
                0b010 => Some(Instruction::CSRRS { rd, rs1, csr }),
                0b011 => Some(Instruction::CSRRC { rd, rs1, csr }),
                0b101 => Some(Instruction::CSRRWI { rd, imm: zimm, csr }),
                0b110 => Some(Instruction::CSRRSI { rd, imm: zimm, csr }),
                0b111 => Some(Instruction::CSRRCI { rd, imm: zimm, csr }),
                _ => None,
            }
        },
        _ => None,
    };
    match found {
        Some(i) => Ok(i),
        None => Err(Exception::UnknownInstruction(instruction)),
    }
}

/// Compressed register field: a three-bit index into `x8 ..= x15`.
pub open spec fn creg(v: u64, lo: u64) -> u8 {
    (bits(v, (lo + 2) as u64, lo) + 8) as u8
}

/// Six-bit immediate of the compressed formats: bit 12 above bits 6..2.
pub open spec fn cimm6(v: u64) -> u64 {
    bits(v, 12, 12) << 5 | bits(v, 6, 2)
}

/// C.ADDI4SPN: nzuimm[5:4|9:6|2|3] in bits 12..5.
pub open spec fn ciw_uimm(v: u64) -> u64 {
    bits(v, 12, 11) << 4 | bits(v, 10, 7) << 6 | bits(v, 6, 6) << 2 | bits(v, 5, 5) << 3
}

/// C.LW / C.SW: uimm[5:3] in bits 12..10, uimm[2|6] in bits 6..5.
pub open spec fn cl_word_uimm(v: u64) -> u64 {
    bits(v, 12, 10) << 3 | bits(v, 6, 6) << 2 | bits(v, 5, 5) << 6
}

/// C.LD / C.SD: uimm[5:3] in bits 12..10, uimm[7:6] in bits 6..5.
pub open spec fn cl_double_uimm(v: u64) -> u64 {
    bits(v, 12, 10) << 3 | bits(v, 6, 5) << 6
}

/// C.ADDI16SP: nzimm[9] in bit 12, nzimm[4|6|8:7|5] in bits 6..2.
pub open spec fn addi16sp_imm(v: u64) -> i64 {
    sign_extend(bits(v, 12, 12) << 9 | bits(v, 6, 6) << 4 | bits(v, 5, 5) << 6 | bits(v, 4, 3) << 7 | bits(v, 2, 2) << 5, 10)
}

/// C.LUI: nzimm[17] in bit 12, nzimm[16:12] in bits 6..2.
pub open spec fn clui_imm(v: u64) -> i64 {
    sign_extend(bits(v, 12, 12) << 17 | bits(v, 6, 2) << 12, 18)
}

/// C.J: offset[11|4|9:8|10|6|7|3:1|5] in bits 12..2.
pub open spec fn cj_offset(v: u64) -> i64 {
    sign_extend(
        bits(v, 12, 12) << 11 | bits(v, 11, 11) << 4 | bits(v, 10, 9) << 8 | bits(v, 8, 8) << 10 | bits(v, 7, 7) << 6
            | bits(v, 6, 6) << 7 | bits(v, 5, 3) << 1 | bits(v, 2, 2) << 5,
        12,
    )
}

/// C.BEQZ / C.BNEZ: offset[8|4:3] in bits 12..10, offset[7:6|2:1|5] in bits 6..2.
pub open spec fn cb_offset(v: u64) -> i64 {
    sign_extend(bits(v, 12, 12) << 8 | bits(v, 11, 10) << 3 | bits(v, 6, 5) << 6 | bits(v, 4, 3) << 1 | bits(v, 2, 2) << 5, 9)
}

/// C.LWSP: uimm[5] in bit 12, uimm[4:2|7:6] in bits 6..2.
pub open spec fn lwsp_uimm(v: u64) -> u64 {
    bits(v, 12, 12) << 5 | bits(v, 6, 4) << 2 | bits(v, 3, 2) << 6
}

/// C.LDSP: uimm[5] in bit 12, uimm[4:3|8:6] in bits 6..2.
pub open spec fn ldsp_uimm(v: u64) -> u64 {
    bits(v, 12, 12) << 5 | bits(v, 6, 5) << 3 | bits(v, 4, 2) << 6
}

/// C.SWSP: uimm[5:2|7:6] in bits 12..7.
pub open spec fn swsp_uimm(v: u64) -> u64 {
    bits(v, 12, 9) << 2 | bits(v, 8, 7) << 6
}

/// C.SDSP: uimm[5:3|8:6] in bits 12..7.
pub open spec fn sdsp_uimm(v: u64) -> u64 {
    bits(v, 12, 10) << 3 | bits(v, 9, 7) << 6
}

/// The full-size instruction that a 16-bit compressed parcel expands to, if it is a
/// legal encoding.
pub open spec fn decoded_compressed(h: u16) -> Option<Instruction> {
    let v = h as u64;
    let f3 = bits(v, 15, 13);
    let r = bits(v, 11, 7) as u8;
    let r2 = bits(v, 6, 2) as u8;
    let rd_c = creg(v, 2);
    let rs1_c = creg(v, 7);
    let imm6 = sign_extend(cimm6(v), 6);
    let shamt = cimm6(v) as u32;
    match bits(v, 1, 0) {
        0b00 => match f3 {
            0b000 => if ciw_uimm(v) == 0 {
                None
            } else {
                Some(Instruction::ADDI { rd: rd_c, rs1: 2, imm: ciw_uimm(v) as i64 })
            },
            0b010 => Some(Instruction::LW { rd: rd_c, rs1: rs1_c, offset: cl_word_uimm(v) as i64 }),
            0b011 => Some(Instruction::LD { rd: rd_c, rs1: rs1_c, offset: cl_double_uimm(v) as i64 }),
            0b110 => Some(Instruction::SW { rs1: rs1_c, rs2: rd_c, offset: cl_word_uimm(v) as i64 }),
            0b111 => Some(Instruction::SD { rs1: rs1_c, rs2: rd_c, offset: cl_double_uimm(v) as i64 }),
            _ => None,
        },
        0b01 => match f3 {
            0b000 => if r == 0 {
                Some(Instruction::ADDI { rd: 0, rs1: 0, imm: 0 })
            } else {
                Some(Instruction::ADDI { rd: r, rs1: r, imm: imm6 })
            },
            0b001 => if r == 0 {
                None
            } else {
                Some(Instruction::ADDIW { rd: r, rs1: r, imm: imm6 })
            },
            0b010 => if r == 0 {
                None
            } else {
                Some(Instruction::ADDI { rd: r, rs1: 0, imm: imm6 })
            },
            0b011 => if r == 2 {
                if addi16sp_imm(v) == 0 {
                    None
                } else {
                    Some(Instruction::ADDI { rd: 2, rs1: 2, imm: addi16sp_imm(v) })
                }
            } else if r != 0 && clui_imm(v) != 0 {
                Some(Instruction::LUI { rd: r, imm: clui_imm(v) })
            } else {
                None
            },
            0b100 => match bits(v, 11, 10) {
                0b00 => Some(Instruction::SRLI { rd: rs1_c, rs1: rs1_c, shamt }),
                0b01 => Some(Instruction::SRAI { rd: rs1_c, rs1: rs1_c, shamt }),
                0b10 => Some(Instruction::ANDI { rd: rs1_c, rs1: rs1_c, imm: imm6 }),
                _ => match (bits(v, 12, 12), bits(v, 6, 5)) {
                    (0, 0b00) => Some(Instruction::SUB { rd: rs1_c, rs1: rs1_c, rs2: rd_c }),
                    (0, 0b01) => Some(Instruction::XOR { rd: rs1_c, rs1: rs1_c, rs2: rd_c }),
                    (0, 0b10) => Some(Instruction::OR { rd: rs1_c, rs1: rs1_c, rs2: rd_c }),
                    (0, 0b11) => Some(Instruction::AND { rd: rs1_c, rs1: rs1_c, rs2: rd_c }),
                    (1, 0b00) => Some(Instruction::SUBW { rd: rs1_c, rs1: rs1_c, rs2: rd_c }),
                    (1, 0b01) => Some(Instruction::ADDW { rd: rs1_c, rs1: rs1_c, rs2: rd_c }),
                    _ => None,
                },
            },
            0b101 => Some(Instruction::JAL { rd: 0, offset: cj_offset(v) }),
            0b110 => Some(Instruction::BEQ { rs1: rs1_c, rs2: 0, offset: cb_offset(v) }),
            _ => Some(Instruction::BNE { rs1: rs1_c, rs2: 0, offset: cb_offset(v) }),
        },
        0b10 => match f3 {
            0b000 => if r == 0 {
                None
            } else {
                Some(Instruction::SLLI { rd: r, rs1: r, shamt })
            },
            0b010 => if r == 0 {
                None
            } else {
                Some(Instruction::LW { rd: r, rs1: 2, offset: lwsp_uimm(v) as i64 })
            },
            0b011 => if r == 0 {
                None
            } else {
                Some(Instruction::LD { rd: r, rs1: 2, offset: ldsp_uimm(v) as i64 })
            },
            0b100 => if bits(v, 12, 12) == 0 {
                if r == 0 {
                    None
                } else if r2 == 0 {
                    Some(Instruction::JALR { rd: 0, rs1: r, offset: 0 })
                } else {
                    Some(Instruction::ADD { rd: r, rs1: 0, rs2: r2 })
                }
            } else if r2 == 0 {
                if r == 0 {
                    Some(Instruction::EBREAK)
                } else {
                    Some(Instruction::JALR { rd: 1, rs1: r, offset: 0 })
                }
            } else if r == 0 {
                None
            } else {
                Some(Instruction::ADD { rd: r, rs1: r, rs2: r2 })
            },
            0b110 => Some(Instruction::SW { rs1: 2, rs2: r2, offset: swsp_uimm(v) as i64 }),
            0b111 => Some(Instruction::SD { rs1: 2, rs2: r2, offset: sdsp_uimm(v) as i64 }),
            _ => None,
        },
        _ => None,
    }
}

/// What decoding a 16-bit compressed parcel yields: the expanded instruction, or a
/// fault that carries the parcel.
pub open spec fn decode_compressed_result(h: u16) -> Result<Instruction, Exception> {
    match decoded_compressed(h) {
        Some(i) => Ok(i),
        None => Err(Exception::UnknownInstruction(h as u32)),
    }
}

/// Decodes a 16-bit compressed parcel into the instruction it stands for.
pub fn decode_compressed(instruction: RawShortInstruction) -> (r: Result<Instruction, Exception>)
    ensures
        r == decode_compressed_result(instruction),
        r matches Ok(i) ==> i.wf(),
{
    let v = instruction as u64;
    let f3 = get_bits(v, 15, 13);
    let r = get_bits(v, 11, 7) as u8;
    let r2 = get_bits(v, 6, 2) as u8;
    let rd_c = (get_bits(v, 4, 2) + 8) as u8;
    let rs1_c = (get_bits(v, 9, 7) + 8) as u8;
    let b12 = get_bits(v, 12, 12);
    let low5 = get_bits(v, 6, 2);
    let imm6_bits = b12 << 5 | low5;
    assert(imm6_bits < 64) by (bit_vector)
        requires
            imm6_bits == b12 << 5 | low5,
            b12 < 2,
            low5 < 32,
    ;
    let imm6 = sign_extend_exec(imm6_bits, 6);
    let shamt = imm6_bits as u32;
    let found = match get_bits(v, 1, 0) {
        0b00 => match f3 {
            0b000 => {
                let nzuimm = get_bits(v, 12, 11) << 4 | get_bits(v, 10, 7) << 6 | get_bits(v, 6, 6) << 2
                    | get_bits(v, 5, 5) << 3;
                if nzuimm == 0 {
                    None
                } else {
                    Some(Instruction::ADDI { rd: rd_c, rs1: 2, imm: nzuimm as i64 })
                }
            },
            0b010 => {
                let uimm = get_bits(v, 12, 10) << 3 | get_bits(v, 6, 6) << 2 | get_bits(v, 5, 5) << 6;
                Some(Instruction::LW { rd: rd_c, rs1: rs1_c, offset: uimm as i64 })
            },
            0b011 => {
                let uimm = get_bits(v, 12, 10) << 3 | get_bits(v, 6, 5) << 6;
                Some(Instruction::LD { rd: rd_c, rs1: rs1_c, offset: uimm as i64 })
            },
            0b110 => {
                let uimm = get_bits(v, 12, 10) << 3 | get_bits(v, 6, 6) << 2 | get_bits(v, 5, 5) << 6;
                Some(Instruction::SW { rs1: rs1_c, rs2: rd_c, offset: uimm as i64 })
            },
            0b111 => {
                let uimm = get_bits(v, 12, 10) << 3 | get_bits(v, 6, 5) << 6;
                Some(Instruction::SD { rs1: rs1_c, rs2: rd_c, offset: uimm as i64 })
            },
            _ => None,
        },
        0b01 => match f3 {
            0b000 => if r == 0 {
                Some(Instruction::ADDI { rd: 0, rs1: 0, imm: 0 })
            } else {
                Some(Instruction::ADDI { rd: r, rs1: r, imm: imm6 })
            },
            0b001 => if r == 0 {
                None
            } else {
                Some(Instruction::ADDIW { rd: r, rs1: r, imm: imm6 })
            },
            0b010 => if r == 0 {
                None
            } else {
                Some(Instruction::ADDI { rd: r, rs1: 0, imm: imm6 })
            },
            0b011 => if r == 2 {
                let imm = sign_extend_exec(
                    b12 << 9 | get_bits(v, 6, 6) << 4 | get_bits(v, 5, 5) << 6 | get_bits(v, 4, 3) << 7
                        | get_bits(v, 2, 2) << 5,
                    10,
                );
                if imm == 0 {
                    None
                } else {
                    Some(Instruction::ADDI { rd: 2, rs1: 2, imm })
                }
            } else {
                let imm = sign_extend_exec(b12 << 17 | get_bits(v, 6, 2) << 12, 18);
                if r != 0 && imm != 0 {
                    Some(Instruction::LUI { rd: r, imm })
                } else {
                    None
                }
            },
            0b100 => match get_bits(v, 11, 10) {
                0b00 => Some(Instruction::SRLI { rd: rs1_c, rs1: rs1_c, shamt }),
                0b01 => Some(Instruction::SRAI { rd: rs1_c, rs1: rs1_c, shamt }),
                0b10 => Some(Instruction::ANDI { rd: rs1_c, rs1: rs1_c, imm: imm6 }),
                _ => match (b12, get_bits(v, 6, 5)) {
                    (0, 0b00) => Some(Instruction::SUB { rd: rs1_c, rs1: rs1_c, rs2: rd_c }),
                    (0, 0b01) => Some(Instruction::XOR { rd: rs1_c, rs1: rs1_c, rs2: rd_c }),
                    (0, 0b10) => Some(Instruction::OR { rd: rs1_c, rs1: rs1_c, rs2: rd_c }),
                    (0, 0b11) => Some(Instruction::AND { rd: rs1_c, rs1: rs1_c, rs2: rd_c }),
                    (1, 0b00) => Some(Instruction::SUBW { rd: rs1_c, rs1: rs1_c, rs2: rd_c }),
                    (1, 0b01) => Some(Instruction::ADDW { rd: rs1_c, rs1: rs1_c, rs2: rd_c }),
                    _ => None,
                },
            },
            0b101 => {
                let offset = sign_extend_exec(
                    b12 << 11 | get_bits(v, 11, 11) << 4 | get_bits(v, 10, 9) << 8 | get_bits(v, 8, 8) << 10
                        | get_bits(v, 7, 7) << 6 | get_bits(v, 6, 6) << 7 | get_bits(v, 5, 3) << 1 | get_bits(v, 2, 2)
                        << 5,
                    12,
                );
                Some(Instruction::JAL { rd: 0, offset })
            },
            _ => {
                let offset = sign_extend_exec(
                    b12 << 8 | get_bits(v, 11, 10) << 3 | get_bits(v, 6, 5) << 6 | get_bits(v, 4, 3) << 1
                        | get_bits(v, 2, 2) << 5,
                    9,
                );
                if f3 == 0b110 {
                    Some(Instruction::BEQ { rs1: rs1_c, rs2: 0, offset })
                } else {
                    Some(Instruction::BNE { rs1: rs1_c, rs2: 0, offset })
                }
            },
        },
        0b10 => match f3 {
            0b000 => if r == 0 {
                None
            } else {
                Some(Instruction::SLLI { rd: r, rs1: r, shamt })
            },
            0b010 => if r == 0 {
                None
            } else {
                let uimm = b12 << 5 | get_bits(v, 6, 4) << 2 | get_bits(v, 3, 2) << 6;
                Some(Instruction::LW { rd: r, rs1: 2, offset: uimm as i64 })
            },
            0b011 => if r == 0 {
                None
            } else {
                let uimm = b12 << 5 | get_bits(v, 6, 5) << 3 | get_bits(v, 4, 2) << 6;
                Some(Instruction::LD { rd: r, rs1: 2, offset: uimm as i64 })
            },
            0b100 => if b12 == 0 {
                if r == 0 {
                    None
                } else if r2 == 0 {
                    Some(Instruction::JALR { rd: 0, rs1: r, offset: 0 })
                } else {
                    Some(Instruction::ADD { rd: r, rs1: 0, rs2: r2 })
                }
            } else if r2 == 0 {
                if r == 0 {
                    Some(Instruction::EBREAK)
                } else {
                    Some(Instruction::JALR { rd: 1, rs1: r, offset: 0 })
                }
            } else if r == 0 {
                None
            } else {
                Some(Instruction::ADD { rd: r, rs1: r, rs2: r2 })
            },
            0b110 => {
                let uimm = get_bits(v, 12, 9) << 2 | get_bits(v, 8, 7) << 6;
                Some(Instruction::SW { rs1: 2, rs2: r2, offset: uimm as i64 })
            },
            0b111 => {
                let uimm = get_bits(v, 12, 10) << 3 | get_bits(v, 9, 7) << 6;
                Some(Instruction::SD { rs1: 2, rs2: r2, offset: uimm as i64 })
            },
            _ => None,
        },
        _ => None,
    };
    match found {
        Some(i) => Ok(i),
        None => Err(Exception::UnknownInstruction(instruction as u32)),
    }
}

/// A 32-bit parcel (low two bits `0b11`) that matches no row of the opcode table
/// decodes to an unknown-instruction fault that carries the parcel.
pub proof fn lemma_unmatched_parcel_is_unknown(p: u32)
    requires
        bits(p as u64, 1, 0) == 0b11,
        decoded(p) is None,
    ensures
        decode_result(p) == Err::<Instruction, Exception>(Exception::UnknownInstruction(p)),
{
}

/// `C.ADDI4SPN` with a zero immediate is not a legal encoding.
pub proof fn lemma_addi4spn_zero_is_unknown(h: u16)
    requires
        bits(h as u64, 1, 0) == 0b00,
        bits(h as u64, 15, 13) == 0b000,
        bits(h as u64, 12, 5) == 0,
    ensures
        decode_compressed_result(h) == Err::<Instruction, Exception>(Exception::UnknownInstruction(h as u32)),
{
    let v = h as u64;
    assert(bits(v, 12, 5) == 0 ==> ciw_uimm(v) == 0) by (bit_vector);
}

/// `C.LUI` with a zero immediate is not a legal encoding, whatever its destination.
pub proof fn lemma_clui_zero_is_unknown(h: u16)
    requires
        bits(h as u64, 1, 0) == 0b01,
        bits(h as u64, 15, 13) == 0b011,
        bits(h as u64, 11, 7) != 2,
        bits(h as u64, 12, 12) == 0,
        bits(h as u64, 6, 2) == 0,
    ensures
        decode_compressed_result(h) == Err::<Instruction, Exception>(Exception::UnknownInstruction(h as u32)),
{
    let v = h as u64;
    assert(bits(v, 12, 12) == 0 && bits(v, 6, 2) == 0 ==> clui_imm(v) == 0) by (bit_vector);
    assert(bits(v, 11, 7) < 32) by (bit_vector);
}

/// `C.LWSP` into register zero is not a legal encoding.
pub proof fn lemma_lwsp_rd_zero_is_unknown(h: u16)
    requires
        bits(h as u64, 1, 0) == 0b10,
        bits(h as u64, 15, 13) == 0b010,
        bits(h as u64, 11, 7) == 0,
    ensures
        decode_compressed_result(h) == Err::<Instruction, Exception>(Exception::UnknownInstruction(h as u32)),
{
}

} // verus!
