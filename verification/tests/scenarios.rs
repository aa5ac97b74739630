use rust6502::cpu6502::Cpu6502;

fn cpu_with(address: u16, program: &[u8]) -> Cpu6502 {
    let mut cpu = Cpu6502::new();
    cpu.load_data_into_memory(address, program.to_vec());
    cpu.pc = address;
    cpu
}

#[test]
fn load_store_load_program() {
    let mut cpu = cpu_with(0x10, &[0xA9, 0x05, 0x85, 0x00, 0xA5, 0x00]);
    assert!(cpu.execute());
    assert!(cpu.execute());
    assert!(cpu.execute());
    assert_eq!(cpu.a, 0x05);
    assert!(!cpu.zero_flag);
    assert_eq!(cpu.memory.read(0x0000), 0x05);
    assert_eq!(cpu.pc, 0x16);
}

#[test]
fn nop_after_reset_only_advances_pc() {
    let mut cpu = Cpu6502::new();
    cpu.load_data_into_memory(0xFF00, vec![0xEA]);
    cpu.reset();
    assert_eq!(cpu.pc, 0xFF00);
    let before = cpu;
    assert!(cpu.execute());
    assert_eq!(cpu.pc, 0xFF01);
    assert_eq!(cpu.a, before.a);
    assert_eq!(cpu.x, before.x);
    assert_eq!(cpu.y, before.y);
    assert_eq!(cpu.sp, before.sp);
    assert_eq!(cpu.carry_flag, before.carry_flag);
    assert_eq!(cpu.zero_flag, before.zero_flag);
    assert_eq!(cpu.overflow_flag, before.overflow_flag);
    assert_eq!(cpu.decimal_flag, before.decimal_flag);
    assert_eq!(cpu.interrupt_flag, before.interrupt_flag);
    assert_eq!(cpu.negative_flag, before.negative_flag);
    assert_eq!(cpu.break_flag, before.break_flag);
    assert_eq!(cpu.unused_flag, before.unused_flag);
}
