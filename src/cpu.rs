use vstd::prelude::*;
use crate::alu::{
    add32, add64, div, divu, divuw, divw, lemma_shift_masks, mul32, mul64, mulh, mulhsu, mulhu, rem, remu, remuw, remw,
    sub32, sub64,
    div_signed, div_unsigned, div_unsigned_word, div_word, mul_high, rem_signed, rem_unsigned, rem_unsigned_word, rem_word,
    sext32, shift_left, shift_right, shift_right_arith, wrap32, wrap64,
};
use crate::bus::{bus_read, bus_write, mapped, Bus};
use crate::csr::{csr_read, csr_write, Csr, CSR_COUNT};
use crate::decode::{decode_compressed_result, decode_result};
use crate::instructions::{Instruction, InstructionContext};
use crate::types::{Exception, RegIdx, MEMORY_BASE};
use crate::memory::le_value;
use vstd::arithmetic::div_mod::lemma_small_mod;

verus! {

/// The architectural state of the hart: registers, program counter, memory contents
/// and CSR storage.
pub struct HartState {
    pub regs: Seq<u64>,
    pub pc: u64,
    pub mem: Seq<u8>,
    pub csrs: Seq<u64>,
}

impl HartState {
    /// 32 registers with register 0 holding zero, and one slot per CSR address.
    pub open spec fn wf(self) -> bool {
        self.regs.len() == 32 && self.regs[0] == 0 && self.csrs.len() == CSR_COUNT
    }

    /// Value of register `i`; register 0 reads zero.
    pub open spec fn x(self, i: RegIdx) -> u64 {
        if i == 0 {
            0
        } else {
            self.regs[i as int]
        }
    }

    /// The state with register `i` set to `v`; writes to register 0 are discarded.
    pub open spec fn set_x(self, i: RegIdx, v: u64) -> HartState {
        if i == 0 {
            self
        } else {
            HartState { regs: self.regs.update(i as int, v), ..self }
        }
    }

    /// The state with the program counter at `pc`.
    pub open spec fn jump(self, pc: u64) -> HartState {
        HartState { pc, ..self }
    }

    /// Address of the next instruction when control falls through.
    pub open spec fn fall_through(self, width: u64) -> u64 {
        wrap64(self.pc + width)
    }
}

/// LB: a loaded byte, sign-extended.
pub open spec fn sext8(v: u64) -> u64 {
    v as u8 as i8 as i64 as u64
}

/// LH: a loaded halfword, sign-extended.
pub open spec fn sext16(v: u64) -> u64 {
    v as u16 as i16 as i64 as u64
}

/// Effective address `base + offset`, modulo `2^64`.
pub open spec fn effective(base: u64, offset: i64) -> u64 {
    wrap64(base + offset as u64)
}

/// Writes `v` to `rd` and falls through.
pub open spec fn retire(s: HartState, rd: RegIdx, v: u64, width: u64) -> Result<HartState, Exception> {
    Ok(s.set_x(rd, v).jump(s.fall_through(width)))
}

/// Loads `size` bytes at `addr`, widens them with `widen` into `rd` and falls through.
pub open spec fn load_into(
    s: HartState,
    rd: RegIdx,
    addr: u64,
    size: u64,
    widen: spec_fn(u64) -> u64,
    width: u64,
) -> Result<HartState, Exception> {
    match bus_read(s.mem, addr, size) {
        Ok(v) => retire(s, rd, widen(v), width),
        Err(e) => Err(e),
    }
}

/// Stores the `size` low bytes of `v` at `addr` and falls through.
pub open spec fn store_from(s: HartState, addr: u64, v: u64, size: u64, width: u64) -> Result<HartState, Exception> {
    match bus_write(s.mem, addr, v, size) {
        Ok(mem) => Ok(HartState { mem, ..s }.jump(s.fall_through(width))),
        Err(e) => Err(e),
    }
}

/// Jumps to `pc + offset` when `taken`, else falls through.
pub open spec fn branch(s: HartState, taken: bool, offset: i64, width: u64) -> Result<HartState, Exception> {
    if taken {
        Ok(s.jump(effective(s.pc, offset)))
    } else {
        Ok(s.jump(s.fall_through(width)))
    }
}

/// CSRRW / CSRRWI: writes `v` to the CSR; reads it into `rd` first unless `rd` is 0.
pub open spec fn csr_swap(s: HartState, rd: RegIdx, csr: u16, v: u64, width: u64) -> Result<HartState, Exception> {
    if rd == 0 {
        Ok(HartState { csrs: csr_write(s.csrs, csr, v), ..s }.jump(s.fall_through(width)))
    } else {
        match csr_read(s.csrs, csr) {
            Ok(o) => retire(HartState { csrs: csr_write(s.csrs, csr, v), ..s }, rd, o, width),
            Err(e) => Err(e),
        }
    }
}

/// CSRRS / CSRRC and their immediate forms: reads the CSR into `rd`, and when
/// `modify` holds writes back `update(old value)`.
pub open spec fn csr_update(
    s: HartState,
    rd: RegIdx,
    csr: u16,
    modify: bool,
    update: spec_fn(u64) -> u64,
    width: u64,
) -> Result<HartState, Exception> {
    match csr_read(s.csrs, csr) {
        Ok(o) => {
            let csrs = if modify {
                csr_write(s.csrs, csr, update(o))
            } else {
                s.csrs
            };
            retire(HartState { csrs, ..s }, rd, o, width)
        },
        Err(e) => Err(e),
    }
}

/// The state after executing `i`, decoded from a parcel of `width` bytes, in state
/// `s`; or the fault it raises, which leaves the state as it was.
pub open spec fn step(s: HartState, i: Instruction, width: u64) -> Result<HartState, Exception> {
    match i {
        Instruction::ADD { rd, rs1, rs2 } => retire(s, rd, wrap64(s.x(rs1) + s.x(rs2)), width),
        Instruction::SUB { rd, rs1, rs2 } => retire(s, rd, wrap64(s.x(rs1) - s.x(rs2)), width),
        Instruction::SLL { rd, rs1, rs2 } => retire(s, rd, shift_left(s.x(rs1), s.x(rs2)), width),
        Instruction::SLT { rd, rs1, rs2 } => retire(
            s,
            rd,
            if (s.x(rs1) as i64) < (s.x(rs2) as i64) { 1 } else { 0 },
            width,
        ),
        Instruction::SLTU { rd, rs1, rs2 } => retire(s, rd, if s.x(rs1) < s.x(rs2) { 1 } else { 0 }, width),
        Instruction::XOR { rd, rs1, rs2 } => retire(s, rd, s.x(rs1) ^ s.x(rs2), width),
        Instruction::SRL { rd, rs1, rs2 } => retire(s, rd, shift_right(s.x(rs1), s.x(rs2)), width),
        Instruction::SRA { rd, rs1, rs2 } => retire(s, rd, shift_right_arith(s.x(rs1), s.x(rs2)), width),
        Instruction::OR { rd, rs1, rs2 } => retire(s, rd, s.x(rs1) | s.x(rs2), width),
        Instruction::AND { rd, rs1, rs2 } => retire(s, rd, s.x(rs1) & s.x(rs2), width),
        Instruction::MUL { rd, rs1, rs2 } => retire(s, rd, wrap64(s.x(rs1) * s.x(rs2)), width),
        Instruction::MULH { rd, rs1, rs2 } => retire(
            s,
            rd,
            mul_high(s.x(rs1) as i64 as int, s.x(rs2) as i64 as int),
            width,
        ),
        Instruction::MULHSU { rd, rs1, rs2 } => retire(s, rd, mul_high(s.x(rs1) as i64 as int, s.x(rs2) as int), width),
        Instruction::MULHU { rd, rs1, rs2 } => retire(s, rd, mul_high(s.x(rs1) as int, s.x(rs2) as int), width),
        Instruction::DIV { rd, rs1, rs2 } => retire(s, rd, div_signed(s.x(rs1), s.x(rs2)), width),
        Instruction::DIVU { rd, rs1, rs2 } => retire(s, rd, div_unsigned(s.x(rs1), s.x(rs2)), width),
        Instruction::REM { rd, rs1, rs2 } => retire(s, rd, rem_signed(s.x(rs1), s.x(rs2)), width),
        Instruction::REMU { rd, rs1, rs2 } => retire(s, rd, rem_unsigned(s.x(rs1), s.x(rs2)), width),
        Instruction::ADDW { rd, rs1, rs2 } => retire(
            s,
            rd,
            sext32(wrap32(s.x(rs1) as u32 + s.x(rs2) as u32)),
            width,
        ),
        Instruction::SUBW { rd, rs1, rs2 } => retire(
            s,
            rd,
            sext32(wrap32(s.x(rs1) as u32 - s.x(rs2) as u32)),
            width,
        ),
        Instruction::SLLW { rd, rs1, rs2 } => retire(
            s,
            rd,
            sext32((s.x(rs1) as u32) << ((s.x(rs2) as u32) & 0x1f)),
            width,
        ),
        Instruction::SRLW { rd, rs1, rs2 } => retire(
            s,
            rd,
            sext32((s.x(rs1) as u32) >> ((s.x(rs2) as u32) & 0x1f)),
            width,
        ),
        Instruction::SRAW { rd, rs1, rs2 } => retire(
            s,
            rd,
            sext32(((s.x(rs1) as i32) >> ((s.x(rs2) as u32) & 0x1f)) as u32),
            width,
        ),
        Instruction::MULW { rd, rs1, rs2 } => retire(
            s,
            rd,
            sext32(wrap32(s.x(rs1) as u32 * s.x(rs2) as u32)),
            width,
        ),
        Instruction::DIVW { rd, rs1, rs2 } => retire(s, rd, div_word(s.x(rs1), s.x(rs2)), width),
        Instruction::DIVUW { rd, rs1, rs2 } => retire(s, rd, div_unsigned_word(s.x(rs1), s.x(rs2)), width),
        Instruction::REMW { rd, rs1, rs2 } => retire(s, rd, rem_word(s.x(rs1), s.x(rs2)), width),
        Instruction::REMUW { rd, rs1, rs2 } => retire(s, rd, rem_unsigned_word(s.x(rs1), s.x(rs2)), width),
        Instruction::ADDI { rd, rs1, imm } => retire(s, rd, wrap64(s.x(rs1) + imm as u64), width),
        Instruction::SLTI { rd, rs1, imm } => retire(s, rd, if (s.x(rs1) as i64) < imm { 1 } else { 0 }, width),
        Instruction::SLTIU { rd, rs1, imm } => retire(s, rd, if s.x(rs1) < imm as u64 { 1 } else { 0 }, width),
        Instruction::XORI { rd, rs1, imm } => retire(s, rd, s.x(rs1) ^ imm as u64, width),
        Instruction::ORI { rd, rs1, imm } => retire(s, rd, s.x(rs1) | imm as u64, width),
        Instruction::ANDI { rd, rs1, imm } => retire(s, rd, s.x(rs1) & imm as u64, width),
        Instruction::SLLI { rd, rs1, shamt } => retire(s, rd, s.x(rs1) << shamt, width),
        Instruction::SRLI { rd, rs1, shamt } => retire(s, rd, s.x(rs1) >> shamt, width),
        Instruction::SRAI { rd, rs1, shamt } => retire(s, rd, ((s.x(rs1) as i64) >> shamt) as u64, width),
        Instruction::ADDIW { rd, rs1, imm } => retire(
            s,
            rd,
            sext32(wrap32(s.x(rs1) as u32 + imm as u32)),
            width,
        ),
        Instruction::SLLIW { rd, rs1, shamt } => retire(s, rd, sext32((s.x(rs1) as u32) << shamt), width),
        Instruction::SRLIW { rd, rs1, shamt } => retire(s, rd, sext32((s.x(rs1) as u32) >> shamt), width),
        Instruction::SRAIW { rd, rs1, shamt } => retire(
            s,
            rd,
            sext32(((s.x(rs1) as i32) >> shamt) as u32),
            width,
        ),
        Instruction::LB { rd, rs1, offset } => load_into(s, rd, effective(s.x(rs1), offset), 1, |v: u64| sext8(v), width),
        Instruction::LH { rd, rs1, offset } => load_into(s, rd, effective(s.x(rs1), offset), 2, |v: u64| sext16(v), width),
        Instruction::LW { rd, rs1, offset } => load_into(
            s,
            rd,
            effective(s.x(rs1), offset),
            4,
            |v: u64| sext32(v as u32),
            width,
        ),
        Instruction::LBU { rd, rs1, offset } => load_into(s, rd, effective(s.x(rs1), offset), 1, |v: u64| v, width),
        Instruction::LHU { rd, rs1, offset } => load_into(s, rd, effective(s.x(rs1), offset), 2, |v: u64| v, width),
        Instruction::LWU { rd, rs1, offset } => load_into(s, rd, effective(s.x(rs1), offset), 4, |v: u64| v, width),
        Instruction::LD { rd, rs1, offset } => load_into(s, rd, effective(s.x(rs1), offset), 8, |v: u64| v, width),
        Instruction::SB { rs1, rs2, offset } => store_from(s, effective(s.x(rs1), offset), s.x(rs2), 1, width),
        Instruction::SH { rs1, rs2, offset } => store_from(s, effective(s.x(rs1), offset), s.x(rs2), 2, width),
        Instruction::SW { rs1, rs2, offset } => store_from(s, effective(s.x(rs1), offset), s.x(rs2), 4, width),
        Instruction::SD { rs1, rs2, offset } => store_from(s, effective(s.x(rs1), offset), s.x(rs2), 8, width),
        Instruction::BEQ { rs1, rs2, offset } => branch(s, s.x(rs1) == s.x(rs2), offset, width),
        Instruction::BNE { rs1, rs2, offset } => branch(s, s.x(rs1) != s.x(rs2), offset, width),
        Instruction::BLT { rs1, rs2, offset } => branch(s, (s.x(rs1) as i64) < (s.x(rs2) as i64), offset, width),
        Instruction::BGE { rs1, rs2, offset } => branch(s, (s.x(rs1) as i64) >= (s.x(rs2) as i64), offset, width),
        Instruction::BLTU { rs1, rs2, offset } => branch(s, s.x(rs1) < s.x(rs2), offset, width),
        Instruction::BGEU { rs1, rs2, offset } => branch(s, s.x(rs1) >= s.x(rs2), offset, width),
        Instruction::LUI { rd, imm } => retire(s, rd, imm as u64, width),
        Instruction::AUIPC { rd, imm } => retire(s, rd, effective(s.pc, imm), width),
        Instruction::JAL { rd, offset } => Ok(s.set_x(rd, s.fall_through(width)).jump(effective(s.pc, offset))),
        Instruction::JALR { rd, rs1, offset } => Ok(
            s.set_x(rd, s.fall_through(width)).jump(effective(s.x(rs1), offset) & !1u64),
        ),
        Instruction::ECALL => Ok(s.jump(s.fall_through(width))),
        Instruction::EBREAK => Ok(s.jump(s.fall_through(width))),
        Instruction::CSRRW { rd, rs1, csr } => csr_swap(s, rd, csr, s.x(rs1), width),
        Instruction::CSRRS { rd, rs1, csr } => csr_update(s, rd, csr, rs1 != 0, |o: u64| o | s.x(rs1), width),
        Instruction::CSRRC { rd, rs1, csr } => csr_update(s, rd, csr, rs1 != 0, |o: u64| o & !s.x(rs1), width),
        Instruction::CSRRWI { rd, imm, csr } => csr_swap(s, rd, csr, imm as u64, width),
        Instruction::CSRRSI { rd, imm, csr } => csr_update(s, rd, csr, imm != 0, |o: u64| o | imm as u64, width),
        Instruction::CSRRCI { rd, imm, csr } => csr_update(s, rd, csr, imm != 0, |o: u64| o & !(imm as u64), width),
    }
}

/// `s` after the register writes `writes`, in order.
pub open spec fn write_all(s: HartState, writes: Seq<(RegIdx, u64)>) -> HartState
    decreases writes.len(),
{
    if writes.len() == 0 {
        s
    } else {
        write_all(s.set_x(writes[0].0, writes[0].1), writes.skip(1))
    }
}

/// Register 0 is wired to zero: after any sequence of register writes it still reads
/// zero and its slot still holds zero, and writes that all target register 0 change
/// nothing.
pub proof fn lemma_register_zero_wired(s: HartState, writes: Seq<(RegIdx, u64)>)
    requires
        s.wf(),
        forall|k: int| 0 <= k < writes.len() ==> (#[trigger] writes[k]).0 < 32,
    ensures
        write_all(s, writes).wf(),
        write_all(s, writes).x(0) == 0,
        (forall|k: int| 0 <= k < writes.len() ==> (#[trigger] writes[k]).0 == 0) ==> write_all(s, writes) == s,
    decreases writes.len(),
{
    if writes.len() > 0 {
        let rest = writes.skip(1);
        assert forall|k: int| 0 <= k < rest.len() implies (#[trigger] rest[k]).0 < 32 by {
            assert(rest[k] == writes[k + 1]);
        }
        lemma_register_zero_wired(s.set_x(writes[0].0, writes[0].1), rest);
        if forall|k: int| 0 <= k < writes.len() ==> (#[trigger] writes[k]).0 == 0 {
            assert(writes[0].0 == 0);
            assert forall|k: int| 0 <= k < rest.len() implies (#[trigger] rest[k]).0 == 0 by {
                assert(rest[k] == writes[k + 1]);
            }
        }
    }
}

/// Whether `i` sets the program counter itself in state `s`: a jump, or a branch
/// whose condition holds.
pub open spec fn transfers_control(s: HartState, i: Instruction) -> bool {
    match i {
        Instruction::JAL { .. } | Instruction::JALR { .. } => true,
        Instruction::BEQ { rs1, rs2, .. } => s.x(rs1) == s.x(rs2),
        Instruction::BNE { rs1, rs2, .. } => s.x(rs1) != s.x(rs2),
        Instruction::BLT { rs1, rs2, .. } => (s.x(rs1) as i64) < (s.x(rs2) as i64),
        Instruction::BGE { rs1, rs2, .. } => (s.x(rs1) as i64) >= (s.x(rs2) as i64),
        Instruction::BLTU { rs1, rs2, .. } => s.x(rs1) < s.x(rs2),
        Instruction::BGEU { rs1, rs2, .. } => s.x(rs1) >= s.x(rs2),
        _ => false,
    }
}

/// Every instruction that completes without setting the program counter itself
/// advances it by exactly the width of its parcel.
pub proof fn lemma_pc_advances_by_width(s: HartState, i: Instruction, width: u64)
    requires
        step(s, i, width) is Ok,
        !transfers_control(s, i),
    ensures
        step(s, i, width)->Ok_0.pc == wrap64(s.pc + width),
{
}

/// `JAL rd, 0` jumps to itself: the program counter stays, `rd` receives the address
/// of the next parcel, and with `rd = 0` nothing changes at all.
pub proof fn lemma_jal_to_self(s: HartState, rd: RegIdx, width: u64)
    requires
        s.wf(),
        rd < 32,
    ensures
        step(s, Instruction::JAL { rd, offset: 0 }, width) == Ok::<HartState, Exception>(
            s.set_x(rd, wrap64(s.pc + width)),
        ),
        step(s, Instruction::JAL { rd, offset: 0 }, width)->Ok_0.pc == s.pc,
        rd != 0 ==> step(s, Instruction::JAL { rd, offset: 0 }, width)->Ok_0.x(rd) == wrap64(s.pc + width),
        rd == 0 ==> step(s, Instruction::JAL { rd, offset: 0 }, width) == Ok::<HartState, Exception>(s),
{
    lemma_small_mod(s.pc as nat, 0x1_0000_0000_0000_0000);
    assert(effective(s.pc, 0) == s.pc);
}

/// Loading the byte `0x80` with LB sign-extends it to `0xFFFF_FFFF_FFFF_FF80`; LBU
/// zero-extends it to `0x80`.
pub proof fn lemma_load_byte_extension(s: HartState, rd: RegIdx, rs1: RegIdx, offset: i64, width: u64)
    requires
        s.wf(),
        rd != 0,
        rd < 32,
        rs1 < 32,
        mapped(s.mem.len(), effective(s.x(rs1), offset), 1),
        s.mem[effective(s.x(rs1), offset) - MEMORY_BASE] == 0x80,
    ensures
        step(s, Instruction::LB { rd, rs1, offset }, width)->Ok_0.x(rd) == 0xFFFF_FFFF_FFFF_FF80,
        step(s, Instruction::LBU { rd, rs1, offset }, width)->Ok_0.x(rd) == 0x80,
{
    let addr = effective(s.x(rs1), offset);
    let off = addr - MEMORY_BASE;
    let bytes = s.mem.subrange(off, off + 1);
    assert(bytes[0] == 0x80);
    assert(bytes.skip(1) =~= Seq::<u8>::empty());
    assert(le_value(bytes.skip(1)) == 0);
    assert(le_value(bytes) == 0x80);
    assert(bus_read(s.mem, addr, 1) == Ok::<u64, Exception>(0x80));
    assert(0x80u64 as u8 as i8 as i64 as u64 == 0xFFFF_FFFF_FFFF_FF80u64) by (bit_vector);
    assert(step(s, Instruction::LB { rd, rs1, offset }, width) == retire(s, rd, sext8(0x80), width));
    assert(step(s, Instruction::LBU { rd, rs1, offset }, width) == retire(s, rd, 0x80, width));
}

/// What fetching at the program counter yields: two bytes, and two more when their
/// low two bits are `0b11` (a 32-bit parcel), little-endian.
pub open spec fn fetch_result(s: HartState) -> Result<u32, Exception> {
    match bus_read(s.mem, s.pc, 2) {
        Err(e) => Err(e),
        Ok(lo) => if lo & 3 == 3 {
            match bus_read(s.mem, wrap64(s.pc + 2), 2) {
                Err(e) => Err(e),
                Ok(hi) => Ok((lo | (hi << 16u64)) as u32),
            }
        } else {
            Ok(lo as u32)
        },
    }
}

/// The instruction and its parcel width that a fetched parcel decodes to.
pub open spec fn decode_parcel(p: u32) -> Result<InstructionContext, Exception> {
    if p & 3 == 3 {
        match decode_result(p) {
            Ok(i) => Ok(InstructionContext { instruction: i, next_pc: 4 }),
            Err(e) => Err(e),
        }
    } else {
        match decode_compressed_result(p as u16) {
            Ok(i) => Ok(InstructionContext { instruction: i, next_pc: 2 }),
            Err(e) => Err(e),
        }
    }
}

/// One cycle from state `s`: whether it stopped at a breakpoint, and the state after
/// it; or the fault that ended it. A breakpoint leaves the state as it was.
pub open spec fn cycle_result(s: HartState) -> Result<(bool, HartState), Exception> {
    match fetch_result(s) {
        Err(e) => Err(e),
        Ok(p) => match decode_parcel(p) {
            Err(e) => Err(e),
            Ok(ctx) => if ctx.instruction is EBREAK {
                Ok((true, s))
            } else {
                match step(s, ctx.instruction, ctx.next_pc) {
                    Ok(t) => Ok((false, t)),
                    Err(e) => Err(e),
                }
            },
        },
    }
}

/// A hart: program counter, register file, CSR bank, and the bus in front of memory.
pub struct Cpu {
    registers: Vec<u64>,
    pc: u64,
    bus: Bus,
    csr: Csr,
}

impl View for Cpu {
    type V = HartState;

    closed spec fn view(&self) -> HartState {
        HartState { regs: self.registers@, pc: self.pc, mem: self.bus@, csrs: self.csr@ }
    }
}

impl Cpu {
    /// The hart's state is well formed (see `HartState::wf`).
    pub open spec fn wf(&self) -> bool {
        self@.wf()
    }

    /// Creates a hart at the reset vector with all registers and CSRs zero.
    pub fn new(bus: Bus) -> (c: Self)
        ensures
            c.wf(),
            c@.regs == Seq::new(32, |i: int| 0u64),
            c@.pc == MEMORY_BASE,
            c@.mem == bus@,
            c@.csrs == Seq::new(CSR_COUNT as nat, |i: int| 0u64),
    {
        let c = Self { registers: vec![0u64; 32], pc: MEMORY_BASE, bus, csr: Csr::new() };
        assert(c@.regs =~= Seq::new(32, |i: int| 0u64));
        c
    }

    /// The program counter.
    pub fn pc(&self) -> (r: u64)
        ensures
            r == self@.pc,
    {
        self.pc
    }

    /// Reads register `index`; register 0 reads zero.
    pub fn read_register(&self, index: RegIdx) -> (r: u64)
        requires
            self.wf(),
            index < 32,
        ensures
            r == self@.x(index),
    {
        if index == 0 {
            return 0;
        }
        self.registers[index as usize]
    }

    /// Writes register `index`; writes to register 0 are discarded.
    pub fn write_register(&mut self, index: RegIdx, value: u64)
        requires
            old(self).wf(),
            index < 32,
        ensures
            final(self).wf(),
            final(self)@ == old(self)@.set_x(index, value),
    {
        if index == 0 {
            return;
        }
        self.registers.set(index as usize, value);
    }

    /// Fetches the parcel at the program counter.
    pub fn fetch(&self) -> (r: Result<u32, Exception>)
        requires
            self.wf(),
        ensures
            r == fetch_result(self@),
    {
        let lo = match self.bus.read(self.pc, 2) {
            Ok(v) => v,
            Err(e) => return Err(e),
        };
        if lo & 3 == 3 {
            let hi = match self.bus.read(add64(self.pc, 2), 2) {
                Ok(v) => v,
                Err(e) => return Err(e),
            };
            Ok((lo | (hi << 16u64)) as u32)
        } else {
            Ok(lo as u32)
        }
    }

    /// Decodes a 32-bit parcel; the program counter will advance by 4.
    pub fn decode(&self, instruction: u32) -> (r: Result<InstructionContext, Exception>)
        ensures
            r == (match decode_result(instruction) {
                Ok(i) => Ok(InstructionContext { instruction: i, next_pc: 4 }),
                Err(e) => Err(e),
            }),
            r matches Ok(ctx) ==> ctx.instruction.wf(),
    {
        match crate::decode::decode(instruction) {
            Ok(i) => Ok(InstructionContext { instruction: i, next_pc: 4 }),
            Err(e) => Err(e),
        }
    }

    /// Decodes a 16-bit compressed parcel; the program counter will advance by 2.
    pub fn decode_compressed(&self, instruction: u16) -> (r: Result<InstructionContext, Exception>)
        ensures
            r == (match decode_compressed_result(instruction) {
                Ok(i) => Ok(InstructionContext { instruction: i, next_pc: 2 }),
                Err(e) => Err(e),
            }),
            r matches Ok(ctx) ==> ctx.instruction.wf(),
    {
        match crate::decode::decode_compressed(instruction) {
            Ok(i) => Ok(InstructionContext { instruction: i, next_pc: 2 }),
            Err(e) => Err(e),
        }
    }

    fn retire(&mut self, rd: RegIdx, v: u64, next: u64)
        requires
            old(self).wf(),
            rd < 32,
        ensures
            final(self).wf(),
            final(self)@ == old(self)@.set_x(rd, v).jump(next),
    {
        self.write_register(rd, v);
        self.pc = next;
    }

    fn load(&mut self, rd: RegIdx, addr: u64, size: u64, signed: bool, next: u64) -> (r: Result<(), Exception>)
        requires
            old(self).wf(),
            rd < 32,
            size == 1 || size == 2 || size == 4 || size == 8,
        ensures
            final(self).wf(),
            match bus_read(old(self)@.mem, addr, size) {
                Ok(v) => r is Ok && final(self)@ == old(self)@.set_x(
                    rd,
                    if !signed {
                        v
                    } else if size == 1 {
                        sext8(v)
                    } else if size == 2 {
                        sext16(v)
                    } else {
                        sext32(v as u32)
                    },
                ).jump(next),
                Err(e) => r == Err::<(), Exception>(e) && final(self)@ == old(self)@,
            },
    {
        let v = match self.bus.read(addr, size) {
            Ok(v) => v,
            Err(e) => return Err(e),
        };
        let w = if !signed {
            v
        } else if size == 1 {
            v as u8 as i8 as i64 as u64
        } else if size == 2 {
            v as u16 as i16 as i64 as u64
        } else {
            v as u32 as i32 as i64 as u64
        };
        self.retire(rd, w, next);
        Ok(())
    }

    fn store(&mut self, addr: u64, v: u64, size: u64, next: u64) -> (r: Result<(), Exception>)
        requires
            old(self).wf(),
            size == 1 || size == 2 || size == 4 || size == 8,
        ensures
            final(self).wf(),
            match bus_write(old(self)@.mem, addr, v, size) {
                Ok(mem) => r is Ok && final(self)@ == HartState { mem, ..old(self)@ }.jump(next),
                Err(e) => r == Err::<(), Exception>(e) && final(self)@ == old(self)@,
            },
    {
        match self.bus.write(addr, v, size) {
            Ok(()) => {
                self.pc = next;
                Ok(())
            },
            Err(e) => Err(e),
        }
    }

    fn branch(&mut self, taken: bool, offset: i64, next: u64)
        requires
            old(self).wf(),
        ensures
            final(self).wf(),
            final(self)@ == old(self)@.jump(if taken { effective(old(self)@.pc, offset) } else { next }),
    {
        if taken {
            self.pc = add64(self.pc, offset as u64);
        } else {
            self.pc = next;
        }
    }

    /// Executes a decoded instruction and advances the program counter by the parcel
    /// width unless the instruction set it. A fault leaves the hart unchanged.
    pub fn execute(&mut self, ctx: InstructionContext) -> (r: Result<(), Exception>)
        requires
            old(self).wf(),
            ctx.instruction.wf(),
        ensures
            final(self).wf(),
            match step(old(self)@, ctx.instruction, ctx.next_pc) {
                Ok(t) => r is Ok && final(self)@ == t,
                Err(e) => r == Err::<(), Exception>(e) && final(self)@ == old(self)@,
            },
    {
        let pc = self.pc;
        let next = add64(pc, ctx.next_pc);
        match ctx.instruction {
            Instruction::ADD { rd, rs1, rs2 } => {
                let v = add64(self.read_register(rs1), self.read_register(rs2));
                self.retire(rd, v, next);
            },
            Instruction::SUB { rd, rs1, rs2 } => {
                let v = sub64(self.read_register(rs1), self.read_register(rs2));
                self.retire(rd, v, next);
            },
            Instruction::SLL { rd, rs1, rs2 } => {
                let b = self.read_register(rs2);
                proof {
                    lemma_shift_masks(b);
                }
                let v = self.read_register(rs1) << (b & 0x3f);
                self.retire(rd, v, next);
            },
            Instruction::SLT { rd, rs1, rs2 } => {
                let v = if (self.read_register(rs1) as i64) < (self.read_register(rs2) as i64) { 1 } else { 0 };
                self.retire(rd, v, next);
            },
            Instruction::SLTU { rd, rs1, rs2 } => {
                let v = if self.read_register(rs1) < self.read_register(rs2) { 1 } else { 0 };
                self.retire(rd, v, next);
            },
            Instruction::XOR { rd, rs1, rs2 } => {
                let v = self.read_register(rs1) ^ self.read_register(rs2);
                self.retire(rd, v, next);
            },
            Instruction::SRL { rd, rs1, rs2 } => {
                let b = self.read_register(rs2);
                proof {
                    lemma_shift_masks(b);
                }
                let v = self.read_register(rs1) >> (b & 0x3f);
                self.retire(rd, v, next);
            },
            Instruction::SRA { rd, rs1, rs2 } => {
                let b = self.read_register(rs2);
                proof {
                    lemma_shift_masks(b);
                }
                let v = ((self.read_register(rs1) as i64) >> (b & 0x3f)) as u64;
                self.retire(rd, v, next);
            },
            Instruction::OR { rd, rs1, rs2 } => {
                let v = self.read_register(rs1) | self.read_register(rs2);
                self.retire(rd, v, next);
            },
            Instruction::AND { rd, rs1, rs2 } => {
                let v = self.read_register(rs1) & self.read_register(rs2);
                self.retire(rd, v, next);
            },
            Instruction::MUL { rd, rs1, rs2 } => {
                let v = mul64(self.read_register(rs1), self.read_register(rs2));
                self.retire(rd, v, next);
            },
            Instruction::MULH { rd, rs1, rs2 } => {
                let v = mulh(self.read_register(rs1), self.read_register(rs2));
                self.retire(rd, v, next);
            },
            Instruction::MULHSU { rd, rs1, rs2 } => {
                let v = mulhsu(self.read_register(rs1), self.read_register(rs2));
                self.retire(rd, v, next);
            },
            Instruction::MULHU { rd, rs1, rs2 } => {
                let v = mulhu(self.read_register(rs1), self.read_register(rs2));
                self.retire(rd, v, next);
            },
            Instruction::DIV { rd, rs1, rs2 } => {
                let v = div(self.read_register(rs1), self.read_register(rs2));
                self.retire(rd, v, next);
            },
            Instruction::DIVU { rd, rs1, rs2 } => {
                let v = divu(self.read_register(rs1), self.read_register(rs2));
                self.retire(rd, v, next);
            },
            Instruction::REM { rd, rs1, rs2 } => {
                let v = rem(self.read_register(rs1), self.read_register(rs2));
                self.retire(rd, v, next);
            },
            Instruction::REMU { rd, rs1, rs2 } => {
                let v = remu(self.read_register(rs1), self.read_register(rs2));
                self.retire(rd, v, next);
            },
            Instruction::ADDW { rd, rs1, rs2 } => {
                let w = add32(self.read_register(rs1) as u32, self.read_register(rs2) as u32);
                self.retire(rd, w as i32 as i64 as u64, next);
            },
            Instruction::SUBW { rd, rs1, rs2 } => {
                let w = sub32(self.read_register(rs1) as u32, self.read_register(rs2) as u32);
                self.retire(rd, w as i32 as i64 as u64, next);
            },
            Instruction::SLLW { rd, rs1, rs2 } => {
                let b = self.read_register(rs2);
                proof {
                    lemma_shift_masks(b);
                }
                let w = (self.read_register(rs1) as u32) << ((b as u32) & 0x1f);
                self.retire(rd, w as i32 as i64 as u64, next);
            },
            Instruction::SRLW { rd, rs1, rs2 } => {
                let b = self.read_register(rs2);
                proof {
                    lemma_shift_masks(b);
                }
                let w = (self.read_register(rs1) as u32) >> ((b as u32) & 0x1f);
                self.retire(rd, w as i32 as i64 as u64, next);
            },
            Instruction::SRAW { rd, rs1, rs2 } => {
                let b = self.read_register(rs2);
                proof {
                    lemma_shift_masks(b);
                }
                let w = ((self.read_register(rs1) as i32) >> ((b as u32) & 0x1f)) as u32;
                self.retire(rd, w as i32 as i64 as u64, next);
            },
            Instruction::MULW { rd, rs1, rs2 } => {
                let w = mul32(self.read_register(rs1) as u32, self.read_register(rs2) as u32);
                self.retire(rd, w as i32 as i64 as u64, next);
            },
            Instruction::DIVW { rd, rs1, rs2 } => {
                let v = divw(self.read_register(rs1), self.read_register(rs2));
                self.retire(rd, v, next);
            },
            Instruction::DIVUW { rd, rs1, rs2 } => {
                let v = divuw(self.read_register(rs1), self.read_register(rs2));
                self.retire(rd, v, next);
            },
            Instruction::REMW { rd, rs1, rs2 } => {
                let v = remw(self.read_register(rs1), self.read_register(rs2));
                self.retire(rd, v, next);
            },
            Instruction::REMUW { rd, rs1, rs2 } => {
                let v = remuw(self.read_register(rs1), self.read_register(rs2));
                self.retire(rd, v, next);
            },
            Instruction::ADDI { rd, rs1, imm } => {
                let v = add64(self.read_register(rs1), imm as u64);
                self.retire(rd, v, next);
            },
            Instruction::SLTI { rd, rs1, imm } => {
                let v = if (self.read_register(rs1) as i64) < imm { 1 } else { 0 };
                self.retire(rd, v, next);
            },
            Instruction::SLTIU { rd, rs1, imm } => {
                let v = if self.read_register(rs1) < imm as u64 { 1 } else { 0 };
                self.retire(rd, v, next);
            },
            Instruction::XORI { rd, rs1, imm } => {
                let v = self.read_register(rs1) ^ imm as u64;
                self.retire(rd, v, next);
            },
            Instruction::ORI { rd, rs1, imm } => {
                let v = self.read_register(rs1) | imm as u64;
                self.retire(rd, v, next);
            },
            Instruction::ANDI { rd, rs1, imm } => {
                let v = self.read_register(rs1) & imm as u64;
                self.retire(rd, v, next);
            },
            Instruction::SLLI { rd, rs1, shamt } => {
                let v = self.read_register(rs1) << shamt;
                self.retire(rd, v, next);
            },
            Instruction::SRLI { rd, rs1, shamt } => {
                let v = self.read_register(rs1) >> shamt;
                self.retire(rd, v, next);
            },
            Instruction::SRAI { rd, rs1, shamt } => {
                let v = ((self.read_register(rs1) as i64) >> shamt) as u64;
                self.retire(rd, v, next);
            },
            Instruction::ADDIW { rd, rs1, imm } => {
                let w = add32(self.read_register(rs1) as u32, imm as u32);
                self.retire(rd, w as i32 as i64 as u64, next);
            },
            Instruction::SLLIW { rd, rs1, shamt } => {
                let w = (self.read_register(rs1) as u32) << shamt;
                self.retire(rd, w as i32 as i64 as u64, next);
            },
            Instruction::SRLIW { rd, rs1, shamt } => {
                let w = (self.read_register(rs1) as u32) >> shamt;
                self.retire(rd, w as i32 as i64 as u64, next);
            },
            Instruction::SRAIW { rd, rs1, shamt } => {
                let w = ((self.read_register(rs1) as i32) >> shamt) as u32;
                self.retire(rd, w as i32 as i64 as u64, next);
            },
            Instruction::LB { rd, rs1, offset } => {
                let addr = add64(self.read_register(rs1), offset as u64);
                return self.load(rd, addr, 1, true, next);
            },
            Instruction::LH { rd, rs1, offset } => {
                let addr = add64(self.read_register(rs1), offset as u64);
                return self.load(rd, addr, 2, true, next);
            },
            Instruction::LW { rd, rs1, offset } => {
                let addr = add64(self.read_register(rs1), offset as u64);
                return self.load(rd, addr, 4, true, next);
            },
            Instruction::LBU { rd, rs1, offset } => {
                let addr = add64(self.read_register(rs1), offset as u64);
                return self.load(rd, addr, 1, false, next);
            },
            Instruction::LHU { rd, rs1, offset } => {
                let addr = add64(self.read_register(rs1), offset as u64);
                return self.load(rd, addr, 2, false, next);
            },
            Instruction::LWU { rd, rs1, offset } => {
                let addr = add64(self.read_register(rs1), offset as u64);
                return self.load(rd, addr, 4, false, next);
            },
            Instruction::LD { rd, rs1, offset } => {
                let addr = add64(self.read_register(rs1), offset as u64);
                return self.load(rd, addr, 8, false, next);
            },
            Instruction::SB { rs1, rs2, offset } => {
                let addr = add64(self.read_register(rs1), offset as u64);
                let v = self.read_register(rs2);
                return self.store(addr, v, 1, next);
            },
            Instruction::SH { rs1, rs2, offset } => {
                let addr = add64(self.read_register(rs1), offset as u64);
                let v = self.read_register(rs2);
                return self.store(addr, v, 2, next);
            },
            Instruction::SW { rs1, rs2, offset } => {
                let addr = add64(self.read_register(rs1), offset as u64);
                let v = self.read_register(rs2);
                return self.store(addr, v, 4, next);
            },
            Instruction::SD { rs1, rs2, offset } => {
                let addr = add64(self.read_register(rs1), offset as u64);
                let v = self.read_register(rs2);
                return self.store(addr, v, 8, next);
            },
            Instruction::BEQ { rs1, rs2, offset } => {
                let taken = self.read_register(rs1) == self.read_register(rs2);
                self.branch(taken, offset, next);
            },
            Instruction::BNE { rs1, rs2, offset } => {
                let taken = self.read_register(rs1) != self.read_register(rs2);
                self.branch(taken, offset, next);
            },
            Instruction::BLT { rs1, rs2, offset } => {
                let taken = (self.read_register(rs1) as i64) < (self.read_register(rs2) as i64);
                self.branch(taken, offset, next);
            },
            Instruction::BGE { rs1, rs2, offset } => {
                let taken = (self.read_register(rs1) as i64) >= (self.read_register(rs2) as i64);
                self.branch(taken, offset, next);
            },
            Instruction::BLTU { rs1, rs2, offset } => {
                let taken = self.read_register(rs1) < self.read_register(rs2);
                self.branch(taken, offset, next);
            },
            Instruction::BGEU { rs1, rs2, offset } => {
                let taken = self.read_register(rs1) >= self.read_register(rs2);
                self.branch(taken, offset, next);
            },
            Instruction::LUI { rd, imm } => {
                self.retire(rd, imm as u64, next);
            },
            Instruction::AUIPC { rd, imm } => {
                let v = add64(pc, imm as u64);
                self.retire(rd, v, next);
            },
            Instruction::JAL { rd, offset } => {
                let target = add64(pc, offset as u64);
                self.retire(rd, next, target);
            },
            Instruction::JALR { rd, rs1, offset } => {
                let target = add64(self.read_register(rs1), offset as u64) & !1u64;
                self.retire(rd, next, target);
            },
            Instruction::ECALL => {
                self.pc = next;
            },
            Instruction::EBREAK => {
                self.pc = next;
            },
            Instruction::CSRRW { rd, rs1, csr } => {
                let v = self.read_register(rs1);
                return self.csr_swap(rd, csr, v, next);
            },
            Instruction::CSRRS { rd, rs1, csr } => {
                let v = self.read_register(rs1);
                let r = if rs1 != 0 {
                    self.csr.execute_rs(csr, v)
                } else {
                    self.csr.read(csr)
                };
                match r {
                    Ok(o) => self.retire(rd, o, next),
                    Err(e) => return Err(e),
                }
            },
            Instruction::CSRRC { rd, rs1, csr } => {
                let v = self.read_register(rs1);
                let r = if rs1 != 0 {
                    self.csr.execute_rc(csr, v)
                } else {
                    self.csr.read(csr)
                };
                match r {
                    Ok(o) => self.retire(rd, o, next),
                    Err(e) => return Err(e),
                }
            },
            Instruction::CSRRWI { rd, imm, csr } => {
                return self.csr_swap(rd, csr, imm as u64, next);
            },
            Instruction::CSRRSI { rd, imm, csr } => {
                let r = if imm != 0 {
                    self.csr.execute_rsi(csr, imm)
                } else {
                    self.csr.read(csr)
                };
                match r {
                    Ok(o) => self.retire(rd, o, next),
                    Err(e) => return Err(e),
                }
            },
            Instruction::CSRRCI { rd, imm, csr } => {
                let r = if imm != 0 {
                    self.csr.execute_rci(csr, imm)
                } else {
                    self.csr.read(csr)
                };
                match r {
                    Ok(o) => self.retire(rd, o, next),
                    Err(e) => return Err(e),
                }
            },
        }
        Ok(())
    }

    fn csr_swap(&mut self, rd: RegIdx, csr: u16, v: u64, next: u64) -> (r: Result<(), Exception>)
        requires
            old(self).wf(),
            rd < 32,
            csr < CSR_COUNT,
        ensures
            final(self).wf(),
            match csr_swap(old(self)@, rd, csr, v, 0) {
                Ok(t) => r is Ok && final(self)@ == t.jump(next),
                Err(e) => r == Err::<(), Exception>(e) && final(self)@ == old(self)@,
            },
    {
        if rd == 0 {
            self.csr.write(csr, v);
            self.pc = next;
            Ok(())
        } else {
            match self.csr.execute_rw(csr, v) {
                Ok(o) => {
                    self.retire(rd, o, next);
                    Ok(())
                },
                Err(e) => Err(e),
            }
        }
    }

    /// Runs one fetch-decode-execute cycle. Returns `Ok(true)` without executing it
    /// when the instruction is a breakpoint, `Ok(false)` after executing any other.
    pub fn cycle(&mut self) -> (r: Result<bool, Exception>)
        requires
            old(self).wf(),
        ensures
            final(self).wf(),
            match cycle_result(old(self)@) {
                Ok((halted, t)) => r == Ok::<bool, Exception>(halted) && final(self)@ == t,
                Err(e) => r == Err::<bool, Exception>(e) && final(self)@ == old(self)@,
            },
    {
        let p = match self.fetch() {
            Ok(p) => p,
            Err(e) => return Err(e),
        };
        let decoded = if p & 3 == 3 {
            self.decode(p)
        } else {
            self.decode_compressed(p as u16)
        };
        let ctx = match decoded {
            Ok(ctx) => ctx,
            Err(e) => return Err(e),
        };
        if let Instruction::EBREAK = ctx.instruction {
            return Ok(true);
        }
        match self.execute(ctx) {
            Ok(()) => Ok(false),
            Err(e) => Err(e),
        }
    }
}

} // verus!
