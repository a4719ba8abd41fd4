use riscv_emu::alu::{div, divu, divuw, divw, mulh, mulhsu, mulhu, rem, remu, remuw, remw};
use riscv_emu::mstatus::{FS, SD, SXL, UXL};
use riscv_emu::{decode, decode_compressed, Bus, Csr, Exception, Extensions, Instruction, Memory, Mstatus};

#[test]
fn memory_is_little_endian() {
    let mut m = Memory::new(16);
    m.write(0, 0x0102_0304_0506_0708, 8);
    assert_eq!(m.read(0, 1), 0x08);
    assert_eq!(m.read(0, 2), 0x0708);
    assert_eq!(m.read(4, 4), 0x0102_0304);
    assert_eq!(m.read(0, 8), 0x0102_0304_0506_0708);
    assert_eq!(m.read(8, 8), 0);
}

#[test]
fn bus_write_then_read_keeps_low_bytes() {
    let mut bus = Bus::new(Memory::new(16));
    let v = 0xAABB_CCDD_EEFF_1122u64;
    for (size, expected) in [(1u64, 0x22u64), (2, 0x1122), (4, 0xEEFF_1122), (8, v)] {
        bus.write(0x8000_0008, v, size).unwrap();
        assert_eq!(bus.read(0x8000_0008, size), Ok(expected));
    }
}

#[test]
fn bus_rejects_unmapped_spans() {
    let mut bus = Bus::new(Memory::new(16));
    assert_eq!(bus.read(0x7FFF_FFFF, 1), Err(Exception::InvalidMemoryAccess(0x7FFF_FFFF)));
    assert_eq!(bus.read(0x8000_000C, 8), Err(Exception::InvalidMemoryAccess(0x8000_000C)));
    assert_eq!(bus.write(0x8000_0010, 1, 1), Err(Exception::InvalidMemoryAccess(0x8000_0010)));
    assert_eq!(bus.write(0, 1, 1), Err(Exception::InvalidMemoryAccess(0)));
    assert_eq!(bus.read(0x8000_000F, 1), Ok(0));
    assert_eq!(bus.read(u64::MAX, 8), Err(Exception::InvalidMemoryAccess(u64::MAX)));
}

#[test]
fn decode_register_forms() {
    // add t2, a0, t1
    assert_eq!(decode(0x0065_03b3), Ok(Instruction::ADD { rd: 7, rs1: 10, rs2: 6 }));
    // sub x3, x1, x2
    assert_eq!(decode(0x4020_81b3), Ok(Instruction::SUB { rd: 3, rs1: 1, rs2: 2 }));
    // div x3, x1, x2
    assert_eq!(decode(0x0220_c1b3), Ok(Instruction::DIV { rd: 3, rs1: 1, rs2: 2 }));
}

#[test]
fn decode_immediates() {
    // addi t0, t0, -1
    assert_eq!(decode(0xfff2_8293), Ok(Instruction::ADDI { rd: 5, rs1: 5, imm: -1 }));
    // bne t0, zero, -16
    assert_eq!(decode(0xfe02_98e3), Ok(Instruction::BNE { rs1: 5, rs2: 0, offset: -16 }));
    // beq t0, zero, 20
    assert_eq!(decode(0x0002_8a63), Ok(Instruction::BEQ { rs1: 5, rs2: 0, offset: 20 }));
    // lui x1, 0x80000
    assert_eq!(decode(0x8000_00b7), Ok(Instruction::LUI { rd: 1, imm: -0x8000_0000 }));
    // sd x6, -8(x5)
    assert_eq!(decode(0xfe62_bc23), Ok(Instruction::SD { rs1: 5, rs2: 6, offset: -8 }));
    // jal x1, -2048
    assert_eq!(decode(0x801f_f0ef), Ok(Instruction::JAL { rd: 1, offset: -2048 }));
    // srai x1, x1, 63 and srli x1, x1, 63
    assert_eq!(decode(0x43f0_d093), Ok(Instruction::SRAI { rd: 1, rs1: 1, shamt: 63 }));
    assert_eq!(decode(0x03f0_d093), Ok(Instruction::SRLI { rd: 1, rs1: 1, shamt: 63 }));
    // csrrw x5, mscratch, x6
    assert_eq!(decode(0x3403_12f3), Ok(Instruction::CSRRW { rd: 5, rs1: 6, csr: 0x340 }));
    assert_eq!(decode(0x0010_0073), Ok(Instruction::EBREAK));
    assert_eq!(decode(0x0000_0073), Ok(Instruction::ECALL));
}

#[test]
fn decode_unmatched_parcels_are_unknown() {
    for p in [0xFFFF_FFFFu32, 0x0000_007F, 0x0000_2063, 0x0400_0033, 0x0000_1067, 0x0020_0073] {
        assert_eq!(decode(p), Err(Exception::UnknownInstruction(p)));
    }
}

#[test]
fn decode_is_repeatable() {
    for p in [0x0065_03b3u32, 0xfe02_98e3, 0xFFFF_FFFF] {
        assert_eq!(decode(p), decode(p));
    }
    for h in [0x9282u16, 0x0000, 0x4501] {
        assert_eq!(decode_compressed(h), decode_compressed(h));
    }
}

#[test]
fn decode_compressed_forms() {
    // c.addi4spn x8, x2, 16
    assert_eq!(decode_compressed(0x0800), Ok(Instruction::ADDI { rd: 8, rs1: 2, imm: 16 }));
    // c.li a0, 0 and c.li a0, -1
    assert_eq!(decode_compressed(0x4501), Ok(Instruction::ADDI { rd: 10, rs1: 0, imm: 0 }));
    assert_eq!(decode_compressed(0x557d), Ok(Instruction::ADDI { rd: 10, rs1: 0, imm: -1 }));
    // c.mv a0, a1 and c.add a0, a1
    assert_eq!(decode_compressed(0x852e), Ok(Instruction::ADD { rd: 10, rs1: 0, rs2: 11 }));
    assert_eq!(decode_compressed(0x952e), Ok(Instruction::ADD { rd: 10, rs1: 10, rs2: 11 }));
    // c.jr ra, c.jalr t0, c.ebreak
    assert_eq!(decode_compressed(0x8082), Ok(Instruction::JALR { rd: 0, rs1: 1, offset: 0 }));
    assert_eq!(decode_compressed(0x9282), Ok(Instruction::JALR { rd: 1, rs1: 5, offset: 0 }));
    assert_eq!(decode_compressed(0x9002), Ok(Instruction::EBREAK));
    // c.j -2 and c.beqz s0, 8
    assert_eq!(decode_compressed(0xbffd), Ok(Instruction::JAL { rd: 0, offset: -2 }));
    assert_eq!(decode_compressed(0xc401), Ok(Instruction::BEQ { rs1: 8, rs2: 0, offset: 8 }));
    // c.lui a0, 1 ; c.addi16sp sp, -64 ; c.lwsp a0, 4(sp) ; c.sdsp ra, 8(sp)
    assert_eq!(decode_compressed(0x6505), Ok(Instruction::LUI { rd: 10, imm: 0x1000 }));
    assert_eq!(decode_compressed(0x7139), Ok(Instruction::ADDI { rd: 2, rs1: 2, imm: -64 }));
    assert_eq!(decode_compressed(0x4512), Ok(Instruction::LW { rd: 10, rs1: 2, offset: 4 }));
    assert_eq!(decode_compressed(0xe406), Ok(Instruction::SD { rs1: 2, rs2: 1, offset: 8 }));
    // c.ld a0, 8(a1) ; c.sub s0, s1 ; c.srai s0, 63
    assert_eq!(decode_compressed(0x6588), Ok(Instruction::LD { rd: 10, rs1: 11, offset: 8 }));
    assert_eq!(decode_compressed(0x8c05), Ok(Instruction::SUB { rd: 8, rs1: 8, rs2: 9 }));
    assert_eq!(decode_compressed(0x947d), Ok(Instruction::SRAI { rd: 8, rs1: 8, shamt: 63 }));
}

#[test]
fn decode_compressed_illegal_immediates() {
    // c.addi4spn with a zero immediate (any rd')
    assert_eq!(decode_compressed(0x0000), Err(Exception::UnknownInstruction(0x0000)));
    assert_eq!(decode_compressed(0x001c), Err(Exception::UnknownInstruction(0x001c)));
    // c.lui a0, 0
    assert_eq!(decode_compressed(0x6501), Err(Exception::UnknownInstruction(0x6501)));
    // c.addi16sp with a zero immediate
    assert_eq!(decode_compressed(0x6101), Err(Exception::UnknownInstruction(0x6101)));
    // c.lwsp x0, 4(sp)
    assert_eq!(decode_compressed(0x4012), Err(Exception::UnknownInstruction(0x4012)));
    // c.fld slot
    assert_eq!(decode_compressed(0x2000), Err(Exception::UnknownInstruction(0x2000)));
}

#[test]
fn csr_file_storage_and_pinned_registers() {
    let mut csr = Csr::new();
    csr.write(0x340, 0xdead_beef);
    assert_eq!(csr.read(0x340), Ok(0xdead_beef));
    csr.write(0xF14, 5);
    assert_eq!(csr.read(0xF14), Ok(0));
    csr.write(0x301, 5);
    let misa = csr.read(0x301).unwrap();
    assert_eq!(misa >> 62, 2);
    assert_eq!(misa & (1 << 8), 1 << 8);
    assert_eq!(misa & (1 << 12), 1 << 12);
    assert_eq!(misa & (1 << 2), 1 << 2);
    assert_eq!(csr.read(0x1000), Err(Exception::InvalidCsrAccess(0x1000)));
}

#[test]
fn csr_read_modify_write_operations() {
    let mut csr = Csr::new();
    assert_eq!(csr.execute_rw(0x340, 0xF0), Ok(0));
    assert_eq!(csr.execute_rs(0x340, 0x0F), Ok(0xF0));
    assert_eq!(csr.execute_rc(0x340, 0x3C), Ok(0xFF));
    assert_eq!(csr.execute_rwi(0x340, 7), Ok(0xC3));
    assert_eq!(csr.execute_rsi(0x340, 8), Ok(7));
    assert_eq!(csr.execute_rci(0x340, 1), Ok(15));
    assert_eq!(csr.read(0x340), Ok(14));
    assert_eq!(csr.execute_rw(0x1000, 1), Err(Exception::InvalidCsrAccess(0x1000)));
    assert_eq!(csr.execute_rw(0xF14, 9), Ok(0));
    assert_eq!(csr.read(0xF14), Ok(0));
}

#[test]
fn division_corner_cases() {
    let min = 0x8000_0000_0000_0000u64;
    assert_eq!(div(min, u64::MAX), min);
    assert_eq!(rem(min, u64::MAX), 0);
    assert_eq!(div(1234, 0), u64::MAX);
    assert_eq!(rem(1234, 0), 1234);
    assert_eq!(divu(1234, 0), u64::MAX);
    assert_eq!(remu(1234, 0), 1234);
    assert_eq!(div(-7i64 as u64, 2), -3i64 as u64);
    assert_eq!(rem(-7i64 as u64, 2), -1i64 as u64);
    assert_eq!(divw(0x8000_0000, 0xFFFF_FFFF), 0xFFFF_FFFF_8000_0000);
    assert_eq!(remw(0x8000_0000, 0xFFFF_FFFF), 0);
    assert_eq!(divw(5, 0), u64::MAX);
    assert_eq!(remw(0x8000_0000, 0), 0xFFFF_FFFF_8000_0000);
    assert_eq!(divuw(5, 0), u64::MAX);
    assert_eq!(remuw(0x1_8000_0000, 0), 0xFFFF_FFFF_8000_0000);
    assert_eq!(divuw(0xFFFF_FFFF, 2), 0x7FFF_FFFF);
}

#[test]
fn high_multiplies() {
    assert_eq!(mulhu(u64::MAX, u64::MAX), u64::MAX - 1);
    assert_eq!(mulh(u64::MAX, u64::MAX), 0);
    assert_eq!(mulh(-2i64 as u64, 3), u64::MAX);
    assert_eq!(mulhsu(u64::MAX, u64::MAX), u64::MAX);
    assert_eq!(mulhsu(2, u64::MAX), 1);
    assert_eq!(mulhu(1 << 32, 1 << 32), 1);
}

#[test]
fn mstatus_masks_writes_and_summarises_dirty_state() {
    let ext = Extensions { has_fpu: true, has_vector: false, is_rv64: true };
    let mut m = Mstatus::new(0);
    m.write(u64::MAX, ext);
    let v = m.read();
    assert_eq!(v & FS, FS);
    assert_eq!(v & SD, SD);
    assert_eq!((v & UXL) >> 32, 2);
    assert_eq!((v & SXL) >> 34, 2);
    let plain = Extensions { has_fpu: false, has_vector: false, is_rv64: false };
    let mut n = Mstatus::new(0);
    n.write(u64::MAX, plain);
    assert_eq!(n.read() & FS, 0);
    assert_eq!(n.read() & SD, 0);
    assert_eq!(Mstatus::new(FS).read(), FS | SD);
}
