use riscv_emu::{Bus, Cpu, Exception, Memory};

const EBREAK: u32 = 0x0010_0073;

fn i_type(opcode: u32, funct3: u32, rd: u32, rs1: u32, imm: i32) -> u32 {
    ((imm as u32 & 0xfff) << 20) | (rs1 << 15) | (funct3 << 12) | (rd << 7) | opcode
}

fn r_type(opcode: u32, funct7: u32, funct3: u32, rd: u32, rs1: u32, rs2: u32) -> u32 {
    (funct7 << 25) | (rs2 << 20) | (rs1 << 15) | (funct3 << 12) | (rd << 7) | opcode
}

fn addi(rd: u32, rs1: u32, imm: i32) -> u32 {
    i_type(0x13, 0, rd, rs1, imm)
}

fn bne(rs1: u32, rs2: u32, offset: i32) -> u32 {
    let o = offset as u32;
    (((o >> 12) & 1) << 31)
        | (((o >> 5) & 0x3f) << 25)
        | (rs2 << 20)
        | (rs1 << 15)
        | (1 << 12)
        | (((o >> 1) & 0xf) << 8)
        | (((o >> 11) & 1) << 7)
        | 0x63
}

fn cpu_with_words(words: &[u32]) -> Cpu {
    let mut bus = Bus::new(Memory::new(4096));
    for (i, w) in words.iter().enumerate() {
        bus.write(0x8000_0000 + 4 * i as u64, *w as u64, 4).unwrap();
    }
    Cpu::new(bus)
}

fn cpu_with_halves(halves: &[u16]) -> Cpu {
    let mut bus = Bus::new(Memory::new(4096));
    for (i, h) in halves.iter().enumerate() {
        bus.write(0x8000_0000 + 2 * i as u64, *h as u64, 2).unwrap();
    }
    Cpu::new(bus)
}

/// Runs until the breakpoint; returns how many instructions were executed.
fn run(cpu: &mut Cpu) -> usize {
    let mut steps = 0;
    while !cpu.cycle().unwrap() {
        steps += 1;
        assert!(steps < 1_000_000);
    }
    steps
}

#[test]
fn register_zero_is_wired() {
    let mut cpu = cpu_with_words(&[addi(0, 0, 42), addi(5, 0, 7), EBREAK]);
    assert_eq!(run(&mut cpu), 2);
    assert_eq!(cpu.read_register(0), 0);
    assert_eq!(cpu.read_register(5), 7);
}

#[test]
fn branch_backward_counts_down() {
    let mut cpu = cpu_with_words(&[addi(1, 0, 3), addi(1, 1, -1), bne(1, 0, -4), EBREAK]);
    // One ADDI, then three rounds of ADDI and BNE: taken twice, then falling through.
    assert_eq!(run(&mut cpu), 7);
    assert_eq!(cpu.read_register(1), 0);
    assert_eq!(cpu.pc(), 0x8000_000c);
}

#[test]
fn word_form_sign_extension() {
    let lui = (0x80000 << 12) | (1 << 7) | 0x37;
    let addiw = i_type(0x1b, 0, 2, 1, 0);
    let mut cpu = cpu_with_words(&[lui, addiw, EBREAK]);
    run(&mut cpu);
    assert_eq!(cpu.read_register(1), 0xFFFF_FFFF_8000_0000);
    assert_eq!(cpu.read_register(2), 0xFFFF_FFFF_8000_0000);
}

#[test]
fn division_corner_case_program() {
    let slli = i_type(0x13, 1, 1, 1, 63);
    let div = r_type(0x33, 1, 4, 3, 1, 2);
    let rem = r_type(0x33, 1, 6, 4, 1, 2);
    let mut cpu = cpu_with_words(&[addi(1, 0, 1), slli, addi(2, 0, -1), div, rem, EBREAK]);
    run(&mut cpu);
    assert_eq!(cpu.read_register(1), 0x8000_0000_0000_0000);
    assert_eq!(cpu.read_register(2), u64::MAX);
    assert_eq!(cpu.read_register(3), 0x8000_0000_0000_0000);
    assert_eq!(cpu.read_register(4), 0);
}

#[test]
fn compressed_call_and_return() {
    // c.jalr x5 ; c.ebreak ; c.jr x1
    let mut cpu = cpu_with_halves(&[0x9282, 0x9002, 0x8082]);
    cpu.write_register(5, 0x8000_0004);
    assert_eq!(run(&mut cpu), 2);
    assert_eq!(cpu.pc(), 0x8000_0002);
    assert_eq!(cpu.read_register(1), 0x8000_0002);
}

#[test]
fn jal_to_itself_without_link_stays_put() {
    let jal_x0 = 0x6f;
    let mut cpu = cpu_with_words(&[jal_x0]);
    for _ in 0..3 {
        assert_eq!(cpu.cycle(), Ok(false));
        assert_eq!(cpu.pc(), 0x8000_0000);
    }
    assert_eq!(cpu.read_register(0), 0);
}

#[test]
fn jal_to_itself_with_link_stores_next_address() {
    let jal_x1 = (1 << 7) | 0x6f;
    let mut cpu = cpu_with_words(&[jal_x1]);
    assert_eq!(cpu.cycle(), Ok(false));
    assert_eq!(cpu.pc(), 0x8000_0000);
    assert_eq!(cpu.read_register(1), 0x8000_0004);
}

#[test]
fn pc_advances_by_parcel_width() {
    // c.nop, then addi x1, x0, 1
    let mut bus = Bus::new(Memory::new(64));
    bus.write(0x8000_0000, 0x0001, 2).unwrap();
    bus.write(0x8000_0002, addi(1, 0, 1) as u64, 4).unwrap();
    let mut cpu = Cpu::new(bus);
    assert_eq!(cpu.cycle(), Ok(false));
    assert_eq!(cpu.pc(), 0x8000_0002);
    assert_eq!(cpu.cycle(), Ok(false));
    assert_eq!(cpu.pc(), 0x8000_0006);
    assert_eq!(cpu.read_register(1), 1);
}

#[test]
fn load_byte_sign_and_zero_extension() {
    let lb = i_type(0x03, 0, 6, 5, 0);
    let lbu = i_type(0x03, 4, 7, 5, 0);
    let mut cpu = cpu_with_words(&[lb, lbu, EBREAK, 0x80]);
    cpu.write_register(5, 0x8000_000c);
    run(&mut cpu);
    assert_eq!(cpu.read_register(6), 0xFFFF_FFFF_FFFF_FF80);
    assert_eq!(cpu.read_register(7), 0x80);
}

#[test]
fn store_then_load_round_trip() {
    let sd = (2 << 12) | (6 << 20) | (5 << 15) | 0x23 | (1 << 12);
    let ld = i_type(0x03, 3, 7, 5, 0);
    let mut cpu = cpu_with_words(&[sd, ld, EBREAK]);
    cpu.write_register(5, 0x8000_0100);
    cpu.write_register(6, 0x0123_4567_89ab_cdef);
    run(&mut cpu);
    assert_eq!(cpu.read_register(7), 0x0123_4567_89ab_cdef);
}

#[test]
fn load_below_memory_faults_and_keeps_pc() {
    let lw = i_type(0x03, 2, 6, 0, 16);
    let mut cpu = cpu_with_words(&[lw]);
    assert_eq!(cpu.cycle(), Err(Exception::InvalidMemoryAccess(16)));
    assert_eq!(cpu.pc(), 0x8000_0000);
    assert_eq!(cpu.read_register(6), 0);
}

#[test]
fn unknown_instruction_faults() {
    let mut cpu = cpu_with_words(&[0xFFFF_FFFF]);
    assert_eq!(cpu.cycle(), Err(Exception::UnknownInstruction(0xFFFF_FFFF)));
    assert_eq!(cpu.pc(), 0x8000_0000);
}

#[test]
fn fetch_past_memory_faults() {
    let mut bus = Bus::new(Memory::new(4));
    bus.write(0x8000_0000, addi(1, 0, 1) as u64, 4).unwrap();
    let mut small = Cpu::new(bus);
    assert_eq!(small.cycle(), Ok(false));
    assert_eq!(small.fetch(), Err(Exception::InvalidMemoryAccess(0x8000_0004)));
}

#[test]
fn csr_instructions_read_and_write() {
    // csrrw x0, 0x340, x5 ; csrrs x6, 0x340, x0 ; csrrsi x7, 0x340, 3 ; csrrci x8, 0x340, 1 ;
    // csrrs x9, 0x340, x0 ; csrrs x10, misa, x0 ; csrrw x11, mhartid, x5
    let csrrw = |rd: u32, csr: u32, rs1: u32| (csr << 20) | (rs1 << 15) | (1 << 12) | (rd << 7) | 0x73;
    let csrrs = |rd: u32, csr: u32, rs1: u32| (csr << 20) | (rs1 << 15) | (2 << 12) | (rd << 7) | 0x73;
    let csrrsi = |rd: u32, csr: u32, imm: u32| (csr << 20) | (imm << 15) | (6 << 12) | (rd << 7) | 0x73;
    let csrrci = |rd: u32, csr: u32, imm: u32| (csr << 20) | (imm << 15) | (7 << 12) | (rd << 7) | 0x73;
    let mut cpu = cpu_with_words(&[
        csrrw(0, 0x340, 5),
        csrrs(6, 0x340, 0),
        csrrsi(7, 0x340, 3),
        csrrci(8, 0x340, 1),
        csrrs(9, 0x340, 0),
        csrrs(10, 0x301, 0),
        csrrw(11, 0xF14, 5),
        EBREAK,
    ]);
    cpu.write_register(5, 0x1234);
    run(&mut cpu);
    assert_eq!(cpu.read_register(6), 0x1234);
    assert_eq!(cpu.read_register(7), 0x1234);
    assert_eq!(cpu.read_register(8), 0x1237);
    assert_eq!(cpu.read_register(9), 0x1236);
    assert_eq!(cpu.read_register(10), 0x8000_0000_0000_1104);
    assert_eq!(cpu.read_register(11), 0);
}

#[test]
fn shifts_by_extreme_amounts() {
    let sll = |rd: u32, rs2: u32| r_type(0x33, 0, 1, rd, 1, rs2);
    let srl = |rd: u32, rs2: u32| r_type(0x33, 0, 5, rd, 1, rs2);
    let sra = |rd: u32, rs2: u32| r_type(0x33, 0x20, 5, rd, 1, rs2);
    let mut cpu = cpu_with_words(&[sll(4, 2), srl(5, 2), sra(6, 2), sll(7, 3), srl(8, 3), sra(9, 3), EBREAK]);
    let x1 = 0x8000_0000_0000_0003u64;
    cpu.write_register(1, x1);
    cpu.write_register(2, 63);
    cpu.write_register(3, 64);
    run(&mut cpu);
    assert_eq!(cpu.read_register(4), 0x8000_0000_0000_0000);
    assert_eq!(cpu.read_register(5), 1);
    assert_eq!(cpu.read_register(6), u64::MAX);
    assert_eq!(cpu.read_register(7), x1);
    assert_eq!(cpu.read_register(8), x1);
    assert_eq!(cpu.read_register(9), x1);
}

#[test]
fn writes_to_register_zero_are_discarded() {
    let mut cpu = cpu_with_words(&[EBREAK]);
    for v in [1u64, u64::MAX, 42] {
        cpu.write_register(0, v);
        assert_eq!(cpu.read_register(0), 0);
    }
}
