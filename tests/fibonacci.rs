use riscv_emu::{Bus, Cpu, Memory};

#[test]
fn test_fibonacci() {
    let memory = Memory::new(1024 * 1024 * 4);
    let mut bus = Bus::new(memory);

    let code: Vec<u8> = vec![
        0x93, 0x02, 0x05, 0x00, // mv   t0, a0
        0x13, 0x05, 0x00, 0x00, // li   a0, 0
        0x13, 0x03, 0x10, 0x00, // li   t1, 1
        0x63, 0x8a, 0x02, 0x00, // beqz t0, 20
        0xb3, 0x03, 0x65, 0x00, // add  t2, a0, t1
        0x13, 0x05, 0x03, 0x00, // mv   a0, t1
        0x13, 0x83, 0x03, 0x00, // mv   t1, t2
        0x93, 0x82, 0xf2, 0xff, // addi t0, t0, -1
        0xe3, 0x98, 0x02, 0xfe, // bne  t0, zero, -16
        0x73, 0x00, 0x10, 0x00, // ebreak
    ];
    for (i, b) in code.iter().enumerate() {
        bus.write(0x8000_0000 + i as u64, *b as u64, 1).unwrap();
    }

    let mut cpu = Cpu::new(bus);
    cpu.write_register(10, 10);
    cpu.write_register(1, 12345678);

    let mut steps = 0;
    loop {
        let halted = cpu.cycle().unwrap();
        if halted {
            break;
        }
        steps += 1;
        assert!(steps < 1_000_000, "no breakpoint reached");
    }
    // Fib(10) = 55
    assert_eq!(cpu.read_register(10), 55);
    assert_eq!(cpu.pc(), 0x8000_0000 + 36);
}
