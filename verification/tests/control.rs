use rust6502::cpu6502::{Cpu, Cpu6502};

fn cpu_with(address: u16, program: &[u8]) -> Cpu6502 {
    let mut cpu = Cpu6502::new();
    cpu.load_data_into_memory(address, program.to_vec());
    cpu.pc = address;
    cpu
}

fn status_of(cpu: &Cpu6502) -> u8 {
    (cpu.carry_flag as u8)
        | (cpu.zero_flag as u8) << 1
        | (cpu.interrupt_flag as u8) << 2
        | (cpu.decimal_flag as u8) << 3
        | (cpu.break_flag as u8) << 4
        | 1 << 5
        | (cpu.overflow_flag as u8) << 6
        | (cpu.negative_flag as u8) << 7
}

#[test]
fn power_on_state() {
    let mut cpu = Cpu6502::new();
    assert_eq!((cpu.a, cpu.x, cpu.y), (0, 0, 0));
    assert_eq!(cpu.sp, 0xFE);
    assert_eq!(cpu.pc, 0);
    assert!(!cpu.carry_flag && !cpu.zero_flag && !cpu.overflow_flag && !cpu.decimal_flag);
    assert!(!cpu.interrupt_flag && !cpu.negative_flag && !cpu.break_flag);
    assert!(cpu.unused_flag);
    assert_eq!(cpu.cycle, 0);
    assert_eq!(cpu.trace, [0u16; 10]);
    assert_eq!(cpu.memory.read(0x1234), 0);
}

#[test]
fn default_is_power_on() {
    let mut cpu = Cpu6502::default();
    assert_eq!((cpu.a, cpu.x, cpu.y, cpu.sp, cpu.pc), (0, 0, 0, 0xFE, 0));
    assert_eq!(cpu.memory.read(0x0000), 0);
    assert!(cpu.unused_flag);
}

#[test]
fn short_name_is_the_same_processor() {
    let mut cpu = Cpu::new();
    cpu.load_data_into_memory(0x10, vec![0xA9, 0x07]);
    cpu.reset();
    cpu.pc = 0x10;
    assert!(cpu.execute());
    assert_eq!(cpu.a, 7);
}

#[test]
fn reset_restores_registers_and_keeps_memory() {
    let mut cpu = cpu_with(0x0300, &[0xA9, 0x80, 0x38, 0xF8, 0x78, 0x48]);
    for _ in 0..5 {
        assert!(cpu.execute());
    }
    cpu.x = 3;
    cpu.y = 4;
    cpu.set_keypress(b'k');
    let _ = cpu.string_cpu_status();
    cpu.reset();
    assert_eq!((cpu.a, cpu.x, cpu.y), (0, 0, 0));
    assert_eq!(cpu.sp, 0xFE);
    assert_eq!(cpu.pc, 0xFF00);
    assert!(!cpu.carry_flag && !cpu.zero_flag && !cpu.overflow_flag && !cpu.decimal_flag);
    assert!(!cpu.interrupt_flag && !cpu.negative_flag && !cpu.break_flag);
    assert_eq!(cpu.cycle, 0);
    assert_eq!(cpu.trace, [0u16; 10]);
    // Memory and devices persist.
    assert_eq!(cpu.memory.read(0x0300), 0xA9);
    assert_eq!(cpu.memory.read(0x0305), 0x48);
    assert_eq!(cpu.memory.read(0x01FE), 0x80);
    assert!(cpu.memory.apple_key_ready);
}

#[test]
fn reset_is_idempotent() {
    let mut cpu = cpu_with(0x0300, &[0xA9, 0x80, 0x48]);
    assert!(cpu.execute());
    assert!(cpu.execute());
    cpu.reset();
    let once = cpu;
    cpu.reset();
    assert_eq!((cpu.a, cpu.x, cpu.y, cpu.sp, cpu.pc), (once.a, once.x, once.y, once.sp, once.pc));
    assert_eq!(status_of(&cpu), status_of(&once));
    assert_eq!(cpu.cycle, once.cycle);
    assert_eq!(cpu.trace, once.trace);
    assert_eq!(cpu.memory.read(0x0300), 0xA9);
}

#[test]
fn reset_pc_only_clears_the_program_counter() {
    let mut cpu = Cpu6502::new();
    cpu.a = 9;
    cpu.sp = 0x80;
    cpu.pc = 0x4321;
    cpu.carry_flag = true;
    cpu.reset_pc();
    assert_eq!(cpu.pc, 0);
    assert_eq!(cpu.a, 9);
    assert_eq!(cpu.sp, 0x80);
    assert!(cpu.carry_flag);
}

#[test]
fn load_wraps_past_the_top_of_memory() {
    let mut cpu = Cpu6502::new();
    cpu.load_data_into_memory(0xFFFE, vec![1, 2, 3, 4]);
    assert_eq!(cpu.memory.read(0xFFFE), 1);
    assert_eq!(cpu.memory.read(0xFFFF), 2);
    assert_eq!(cpu.memory.read(0x0000), 3);
    assert_eq!(cpu.memory.read(0x0001), 4);
    assert_eq!(cpu.memory.read(0x0002), 0);
    assert_eq!(cpu.memory.read(0xFFFD), 0);
}

#[test]
fn load_of_nothing_changes_nothing() {
    let mut cpu = Cpu6502::new();
    cpu.memory.write(0x10, 5);
    cpu.load_data_into_memory(0x10, Vec::new());
    assert_eq!(cpu.memory.read(0x10), 5);
}

#[test]
fn load_respects_and_keeps_protection() {
    let mut cpu = Cpu6502::new();
    cpu.memory.write_with_status(0x0401, 0xEE, true);
    cpu.load_data_into_memory(0x0400, vec![1, 2, 3]);
    assert_eq!(cpu.memory.read(0x0400), 1);
    assert_eq!(cpu.memory.read(0x0401), 0xEE);
    assert_eq!(cpu.memory.read(0x0402), 3);
    // Loading does not protect what it wrote.
    cpu.memory.write(0x0400, 9);
    assert_eq!(cpu.memory.read(0x0400), 9);
    // The protected cell is still protected.
    cpu.memory.write(0x0401, 9);
    assert_eq!(cpu.memory.read(0x0401), 0xEE);
}

#[test]
fn load_of_a_whole_image_and_more() {
    let mut cpu = Cpu6502::new();
    let data: Vec<u8> = (0..65536u32 + 3).map(|i| (i % 251) as u8).collect();
    cpu.load_data_into_memory(0x8000, data.clone());
    // The last three bytes went over the first three.
    assert_eq!(cpu.memory.read(0x8000), data[65536]);
    assert_eq!(cpu.memory.read(0x8001), data[65537]);
    assert_eq!(cpu.memory.read(0x8002), data[65538]);
    assert_eq!(cpu.memory.read(0x8003), data[3]);
    assert_eq!(cpu.memory.read(0x7FFF), data[65535]);
}

#[test]
fn every_opcode_is_either_performed_or_reported() {
    let valid: [u8; 156] = [
        0x00, 0x01, 0x05, 0x06, 0x08, 0x09, 0x0a, 0x0d, 0x0e, 0x10, 0x11, 0x15, 0x16, 0x18, 0x19,
        0x1d, 0x1e, 0x20, 0x21, 0x24, 0x25, 0x26, 0x28, 0x29, 0x2a, 0x2c, 0x2d, 0x2e, 0x30, 0x31,
        0x35, 0x36, 0x38, 0x39, 0x3d, 0x3e, 0x40, 0x41, 0x45, 0x46, 0x48, 0x49, 0x4a, 0x4c, 0x4d,
        0x4e, 0x50, 0x51, 0x55, 0x56, 0x58, 0x59, 0x5a, 0x5d, 0x5e, 0x60, 0x61, 0x65, 0x66, 0x68,
        0x69, 0x6a, 0x6c, 0x6d, 0x6e, 0x70, 0x71, 0x75, 0x76, 0x78, 0x79, 0x7a, 0x7d, 0x7e, 0x80,
        0x81, 0x84, 0x85, 0x86, 0x88, 0x8a, 0x8c, 0x8d, 0x8e, 0x90, 0x91, 0x94, 0x95, 0x96, 0x98,
        0x99, 0x9a, 0x9d, 0xa0, 0xa1, 0xa2, 0xa4, 0xa5, 0xa6, 0xa8, 0xa9, 0xaa, 0xac, 0xad, 0xae,
        0xb0, 0xb1, 0xb4, 0xb5, 0xb6, 0xb8, 0xb9, 0xba, 0xbc, 0xbd, 0xbe, 0xc0, 0xc1, 0xc4, 0xc5,
        0xc6, 0xc8, 0xc9, 0xca, 0xcc, 0xcd, 0xce, 0xd0, 0xd1, 0xd5, 0xd6, 0xd8, 0xd9, 0xda, 0xdd,
        0xde, 0xe0, 0xe1, 0xe4, 0xe5, 0xe6, 0xe8, 0xe9, 0xea, 0xec, 0xed, 0xee, 0xf0, 0xf1, 0xf5,
        0xf6, 0xf8, 0xf9, 0xfa, 0xfd, 0xfe,
    ];
    let mut count = 0;
    for opcode in 0..=255u8 {
        let mut cpu = cpu_with(0x0400, &[opcode, 0x10, 0x20]);
        let ok = cpu.execute();
        assert_eq!(ok, valid.contains(&opcode), "opcode {opcode:#04x}");
        if ok {
            count += 1;
        }
    }
    assert_eq!(count, 156);
}

#[test]
fn invalid_opcode_is_skipped_and_traced() {
    let mut cpu = cpu_with(0x0400, &[0xEA, 0xEA, 0x02, 0xEA]);
    cpu.a = 0x12;
    cpu.carry_flag = true;
    assert!(cpu.execute());
    assert!(cpu.execute());
    assert!(!cpu.execute());
    assert_eq!(cpu.pc, 0x0403);
    assert_eq!(cpu.a, 0x12);
    assert_eq!(cpu.sp, 0xFE);
    assert!(cpu.carry_flag);
    assert_eq!(cpu.trace[9], 0x0402);
    assert_eq!(cpu.trace[8], 0x0401);
    assert_eq!(cpu.trace[7], 0x0400);
    // The caller may go on.
    assert!(cpu.execute());
    assert_eq!(cpu.pc, 0x0404);
}

#[test]
fn trace_keeps_the_last_ten_instruction_addresses() {
    let mut cpu = cpu_with(0x0500, &[0xEA; 16]);
    for _ in 0..3 {
        assert!(cpu.execute());
    }
    assert_eq!(cpu.trace, [0, 0, 0, 0, 0, 0, 0, 0x0500, 0x0501, 0x0502]);
    for _ in 0..10 {
        assert!(cpu.execute());
    }
    assert_eq!(
        cpu.trace,
        [0x0503, 0x0504, 0x0505, 0x0506, 0x0507, 0x0508, 0x0509, 0x050A, 0x050B, 0x050C]
    );
}

#[test]
fn stack_is_lifo_across_wraparound() {
    let mut cpu = Cpu6502::new();
    // PHA at 0x0600, PLA at 0x0601.
    cpu.load_data_into_memory(0x0600, vec![0x48, 0x68]);
    for start in [0xFFu8, 0xFE, 0x80, 0x05, 0x00] {
        cpu.sp = start;
        for i in 0..256u32 {
            cpu.a = (i as u8).wrapping_mul(7).wrapping_add(3);
            cpu.pc = 0x0600;
            assert!(cpu.execute());
        }
        assert_eq!(cpu.sp, start);
        for i in (0..256u32).rev() {
            cpu.pc = 0x0601;
            assert!(cpu.execute());
            assert_eq!(cpu.a, (i as u8).wrapping_mul(7).wrapping_add(3));
        }
        assert_eq!(cpu.sp, start);
    }
}

#[test]
fn push_writes_then_decrements_and_pull_increments_then_reads() {
    let mut cpu = cpu_with(0x0600, &[0x48, 0x68]);
    cpu.sp = 0x00;
    cpu.a = 0x5A;
    assert!(cpu.execute());
    assert_eq!(cpu.memory.read(0x0100), 0x5A);
    assert_eq!(cpu.sp, 0xFF);
    cpu.a = 0;
    assert!(cpu.execute());
    assert_eq!(cpu.a, 0x5A);
    assert_eq!(cpu.sp, 0x00);
    // At the other end of the page.
    cpu.sp = 0xFF;
    cpu.a = 0xA5;
    cpu.pc = 0x0600;
    assert!(cpu.execute());
    assert_eq!(cpu.memory.read(0x01FF), 0xA5);
    assert_eq!(cpu.sp, 0xFE);
}

#[test]
fn pushes_and_pulls_of_index_registers() {
    // PHX, PHY, PLX, PLY
    let mut cpu = cpu_with(0x0600, &[0xDA, 0x5A, 0xFA, 0x7A]);
    cpu.x = 0x11;
    cpu.y = 0x80;
    assert!(cpu.execute());
    assert!(cpu.execute());
    assert_eq!(cpu.sp, 0xFC);
    assert!(cpu.execute());
    assert_eq!(cpu.x, 0x80);
    assert!(cpu.negative_flag);
    assert!(cpu.execute());
    assert_eq!(cpu.y, 0x11);
    assert!(!cpu.negative_flag && !cpu.zero_flag);
    assert_eq!(cpu.sp, 0xFE);
}

#[test]
fn pull_sets_zero_and_negative() {
    let mut cpu = cpu_with(0x0600, &[0x48, 0x68]);
    cpu.a = 0x00;
    assert!(cpu.execute());
    cpu.a = 0x55;
    assert!(cpu.execute());
    assert_eq!(cpu.a, 0);
    assert!(cpu.zero_flag && !cpu.negative_flag);
}

#[test]
fn php_pushes_status_with_break_and_unused_set() {
    let mut cpu = cpu_with(0x0600, &[0x08]);
    cpu.carry_flag = true;
    cpu.negative_flag = true;
    cpu.decimal_flag = true;
    assert!(cpu.execute());
    assert_eq!(cpu.memory.read(0x01FE), 0b1011_1001);
    assert_eq!(cpu.sp, 0xFD);
    assert!(cpu.break_flag);
    assert!(cpu.unused_flag);
}

#[test]
fn status_byte_round_trips_through_the_stack() {
    // PHP then PLP, for every combination of the six other flags.
    let mut cpu = cpu_with(0x0600, &[0x08, 0x28]);
    for bits in 0..64u8 {
        cpu.carry_flag = bits & 1 != 0;
        cpu.zero_flag = bits & 2 != 0;
        cpu.interrupt_flag = bits & 4 != 0;
        cpu.decimal_flag = bits & 8 != 0;
        cpu.overflow_flag = bits & 16 != 0;
        cpu.negative_flag = bits & 32 != 0;
        cpu.break_flag = false;
        cpu.pc = 0x0600;
        assert!(cpu.execute());
        let pushed = cpu.memory.read(0x0100 + cpu.sp.wrapping_add(1) as u16);
        assert_eq!(pushed, status_of(&cpu));
        assert_eq!(pushed & 0x30, 0x30);
        let before = status_of(&cpu);
        cpu.carry_flag = !cpu.carry_flag;
        cpu.zero_flag = !cpu.zero_flag;
        cpu.negative_flag = !cpu.negative_flag;
        assert!(cpu.execute());
        assert_eq!(status_of(&cpu), before);
    }
}

#[test]
fn plp_unpacks_every_flag() {
    let mut cpu = cpu_with(0x0600, &[0x28]);
    for value in 0..=255u8 {
        cpu.sp = 0x7F;
        cpu.memory.write(0x0180, value);
        cpu.pc = 0x0600;
        assert!(cpu.execute());
        assert_eq!(cpu.carry_flag, value & 0x01 != 0);
        assert_eq!(cpu.zero_flag, value & 0x02 != 0);
        assert_eq!(cpu.interrupt_flag, value & 0x04 != 0);
        assert_eq!(cpu.decimal_flag, value & 0x08 != 0);
        assert_eq!(cpu.break_flag, value & 0x10 != 0);
        assert_eq!(cpu.overflow_flag, value & 0x40 != 0);
        assert_eq!(cpu.negative_flag, value & 0x80 != 0);
        assert_eq!(cpu.sp, 0x80);
    }
}

#[test]
fn jsr_then_rts_returns_past_the_jsr() {
    // 0x0700: JSR $0710; 0x0703: NOP; 0x0710: RTS
    let mut cpu = cpu_with(0x0700, &[0x20, 0x10, 0x07, 0xEA]);
    cpu.load_data_into_memory(0x0710, vec![0x60]);
    assert!(cpu.execute());
    assert_eq!(cpu.pc, 0x0710);
    assert_eq!(cpu.sp, 0xFC);
    // The return address minus one, high byte first.
    assert_eq!(cpu.memory.read(0x01FE), 0x07);
    assert_eq!(cpu.memory.read(0x01FD), 0x02);
    assert!(cpu.execute());
    assert_eq!(cpu.pc, 0x0703);
    assert_eq!(cpu.sp, 0xFE);
}

#[test]
fn jsr_and_rts_across_page_and_stack_wraparound() {
    // The JSR sits at the end of a page, and the stack pointer wraps.
    let mut cpu = cpu_with(0x07FD, &[0x20, 0x00, 0x30]);
    cpu.load_data_into_memory(0x3000, vec![0x60]);
    cpu.sp = 0x00;
    assert!(cpu.execute());
    assert_eq!(cpu.pc, 0x3000);
    assert_eq!(cpu.sp, 0xFE);
    assert_eq!(cpu.memory.read(0x0100), 0x07);
    assert_eq!(cpu.memory.read(0x01FF), 0xFF);
    assert!(cpu.execute());
    assert_eq!(cpu.pc, 0x0800);
    assert_eq!(cpu.sp, 0x00);
}

#[test]
fn nested_subroutines_return_in_order() {
    // 0x0700: JSR $0710; 0x0710: JSR $0720; 0x0713: RTS; 0x0720: RTS
    let mut cpu = cpu_with(0x0700, &[0x20, 0x10, 0x07]);
    cpu.load_data_into_memory(0x0710, vec![0x20, 0x20, 0x07, 0x60]);
    cpu.load_data_into_memory(0x0720, vec![0x60]);
    assert!(cpu.execute());
    assert!(cpu.execute());
    assert_eq!(cpu.pc, 0x0720);
    assert!(cpu.execute());
    assert_eq!(cpu.pc, 0x0713);
    assert!(cpu.execute());
    assert_eq!(cpu.pc, 0x0703);
    assert_eq!(cpu.sp, 0xFE);
}

#[test]
fn brk_pushes_address_and_status_with_break_set() {
    let mut cpu = cpu_with(0x0812, &[0x00]);
    cpu.carry_flag = true;
    cpu.overflow_flag = true;
    assert!(cpu.execute());
    assert_eq!(cpu.memory.read(0x01FE), 0x08);
    assert_eq!(cpu.memory.read(0x01FD), 0x12);
    assert_eq!(cpu.memory.read(0x01FC), 0b0111_0001);
    assert_eq!(cpu.sp, 0xFB);
    assert_eq!(cpu.pc, 0x0812);
    assert!(cpu.break_flag);
}

#[test]
fn brk_then_rti_restores_pc_and_flags() {
    for bits in 0..64u8 {
        let mut cpu = cpu_with(0x0812, &[0x00]);
        cpu.load_data_into_memory(0x0900, vec![0x40]);
        cpu.carry_flag = bits & 1 != 0;
        cpu.zero_flag = bits & 2 != 0;
        cpu.interrupt_flag = bits & 4 != 0;
        cpu.decimal_flag = bits & 8 != 0;
        cpu.overflow_flag = bits & 16 != 0;
        cpu.negative_flag = bits & 32 != 0;
        cpu.a = 0x33;
        let before = cpu;
        assert!(cpu.execute());
        // The driver sends the processor to the handler and scrambles flags.
        cpu.pc = 0x0900;
        cpu.carry_flag = !cpu.carry_flag;
        cpu.negative_flag = !cpu.negative_flag;
        cpu.decimal_flag = !cpu.decimal_flag;
        assert!(cpu.execute());
        assert_eq!(cpu.pc, before.pc);
        assert_eq!(cpu.sp, before.sp);
        assert_eq!(cpu.a, before.a);
        assert_eq!(cpu.carry_flag, before.carry_flag);
        assert_eq!(cpu.zero_flag, before.zero_flag);
        assert_eq!(cpu.interrupt_flag, before.interrupt_flag);
        assert_eq!(cpu.decimal_flag, before.decimal_flag);
        assert_eq!(cpu.overflow_flag, before.overflow_flag);
        assert_eq!(cpu.negative_flag, before.negative_flag);
        // The break flag is the one flag that the break has changed.
        assert!(cpu.break_flag);
    }
}

#[test]
fn rti_pulls_status_then_low_then_high() {
    let mut cpu = cpu_with(0x0900, &[0x40]);
    cpu.sp = 0xFB;
    cpu.memory.write(0x01FC, 0b1100_0011);
    cpu.memory.write(0x01FD, 0x34);
    cpu.memory.write(0x01FE, 0x12);
    assert!(cpu.execute());
    assert_eq!(cpu.pc, 0x1234);
    assert_eq!(cpu.sp, 0xFE);
    assert!(cpu.carry_flag && cpu.zero_flag && cpu.overflow_flag && cpu.negative_flag);
    assert!(!cpu.interrupt_flag && !cpu.decimal_flag && !cpu.break_flag);
}

#[test]
fn branch_offset_7f_goes_forward_127() {
    // BNE +127 with zero clear
    let mut cpu = cpu_with(0x1000, &[0xD0, 0x7F]);
    assert!(cpu.execute());
    assert_eq!(cpu.pc, 0x1002 + 127);
}

#[test]
fn branch_offset_80_goes_backward_128() {
    let mut cpu = cpu_with(0x1000, &[0xD0, 0x80]);
    assert!(cpu.execute());
    assert_eq!(cpu.pc, 0x1002 - 128);
}

#[test]
fn branch_offsets_are_signed_and_wrap() {
    let mut cpu = cpu_with(0x1000, &[0x80, 0x00]);
    assert!(cpu.execute());
    assert_eq!(cpu.pc, 0x1002);
    let mut cpu = cpu_with(0x1000, &[0x80, 0xFF]);
    assert!(cpu.execute());
    assert_eq!(cpu.pc, 0x1001);
    let mut cpu = cpu_with(0x1000, &[0x80, 0xFE]);
    assert!(cpu.execute());
    assert_eq!(cpu.pc, 0x1000);
    // Forward across the top of memory.
    let mut cpu = cpu_with(0xFFF0, &[0x80, 0x7F]);
    assert!(cpu.execute());
    assert_eq!(cpu.pc, 0x0071);
    // Backward across the bottom of memory.
    let mut cpu = cpu_with(0x0010, &[0x80, 0x80]);
    assert!(cpu.execute());
    assert_eq!(cpu.pc, 0xFF92);
    // For every offset, from a place where nothing wraps.
    for offset in 0..=255u8 {
        let mut cpu = cpu_with(0x4000, &[0x80, offset]);
        assert!(cpu.execute());
        assert_eq!(cpu.pc as i32, 0x4002 + (offset as i8) as i32);
    }
}

#[test]
fn untaken_branch_skips_the_operand() {
    let cases: [(u8, fn(&mut Cpu6502)); 8] = [
        (0x10, |c| c.negative_flag = true),
        (0x30, |c| c.negative_flag = false),
        (0x50, |c| c.overflow_flag = true),
        (0x70, |c| c.overflow_flag = false),
        (0x90, |c| c.carry_flag = true),
        (0xB0, |c| c.carry_flag = false),
        (0xD0, |c| c.zero_flag = true),
        (0xF0, |c| c.zero_flag = false),
    ];
    for (opcode, prepare) in cases {
        let mut cpu = cpu_with(0x1000, &[opcode, 0x40]);
        prepare(&mut cpu);
        let before = status_of(&cpu);
        assert!(cpu.execute());
        assert_eq!(cpu.pc, 0x1002, "opcode {opcode:#04x}");
        assert_eq!(status_of(&cpu), before);
    }
}

#[test]
fn taken_branch_for_each_condition() {
    let cases: [(u8, fn(&mut Cpu6502)); 8] = [
        (0x10, |c| c.negative_flag = false),
        (0x30, |c| c.negative_flag = true),
        (0x50, |c| c.overflow_flag = false),
        (0x70, |c| c.overflow_flag = true),
        (0x90, |c| c.carry_flag = false),
        (0xB0, |c| c.carry_flag = true),
        (0xD0, |c| c.zero_flag = false),
        (0xF0, |c| c.zero_flag = true),
    ];
    for (opcode, prepare) in cases {
        let mut cpu = cpu_with(0x1000, &[opcode, 0x40]);
        prepare(&mut cpu);
        assert!(cpu.execute());
        assert_eq!(cpu.pc, 0x1042, "opcode {opcode:#04x}");
    }
}

#[test]
fn jumps() {
    // JMP $1234
    let mut cpu = cpu_with(0x2000, &[0x4C, 0x34, 0x12]);
    assert!(cpu.execute());
    assert_eq!(cpu.pc, 0x1234);
    assert_eq!(cpu.sp, 0xFE);
    // JMP ($3000) with the pointer 0x5678 stored there
    let mut cpu = cpu_with(0x2000, &[0x6C, 0x00, 0x30]);
    cpu.load_data_into_memory(0x3000, vec![0x78, 0x56]);
    assert!(cpu.execute());
    assert_eq!(cpu.pc, 0x5678);
    // The pointer may straddle a page: the high byte is the next cell.
    let mut cpu = cpu_with(0x2000, &[0x6C, 0xFF, 0x30]);
    cpu.load_data_into_memory(0x30FF, vec![0x78, 0x56]);
    assert!(cpu.execute());
    assert_eq!(cpu.pc, 0x5678);
    // And the top of memory: the high byte is cell zero.
    let mut cpu = cpu_with(0x2000, &[0x6C, 0xFF, 0xFF]);
    cpu.load_data_into_memory(0xFFFF, vec![0x78, 0x56]);
    assert!(cpu.execute());
    assert_eq!(cpu.pc, 0x5678);
}

#[test]
fn flag_instructions() {
    let mut cpu = cpu_with(0x2000, &[0x38, 0xF8, 0x78, 0x18, 0xD8, 0x58, 0xB8]);
    assert!(cpu.execute());
    assert!(cpu.carry_flag);
    assert!(cpu.execute());
    assert!(cpu.decimal_flag);
    assert!(cpu.execute());
    assert!(cpu.interrupt_flag);
    assert!(cpu.execute());
    assert!(!cpu.carry_flag);
    assert!(cpu.execute());
    assert!(!cpu.decimal_flag);
    assert!(cpu.execute());
    assert!(!cpu.interrupt_flag);
    cpu.overflow_flag = true;
    assert!(cpu.execute());
    assert!(!cpu.overflow_flag);
    assert_eq!(cpu.pc, 0x2007);
}

#[test]
fn transfers() {
    // TAX, TAY, TXA, TYA, TSX, TXS
    let mut cpu = cpu_with(0x2000, &[0xAA, 0xA8, 0x8A, 0x98, 0xBA, 0x9A]);
    cpu.a = 0x80;
    assert!(cpu.execute());
    assert_eq!(cpu.x, 0x80);
    assert!(cpu.negative_flag);
    cpu.a = 0x00;
    assert!(cpu.execute());
    assert_eq!(cpu.y, 0x00);
    assert!(cpu.zero_flag);
    cpu.x = 0x12;
    assert!(cpu.execute());
    assert_eq!(cpu.a, 0x12);
    assert!(!cpu.zero_flag && !cpu.negative_flag);
    cpu.y = 0x90;
    assert!(cpu.execute());
    assert_eq!(cpu.a, 0x90);
    assert!(cpu.negative_flag);
    cpu.sp = 0x00;
    assert!(cpu.execute());
    assert_eq!(cpu.x, 0x00);
    assert!(cpu.zero_flag);
    // TXS changes no flag.
    cpu.x = 0x80;
    assert!(cpu.execute());
    assert_eq!(cpu.sp, 0x80);
    assert!(cpu.zero_flag && !cpu.negative_flag);
}

#[test]
fn keypress_is_read_by_the_program() {
    // LDA $D011; LDA $D010; LDA $D011
    let mut cpu = cpu_with(0x2000, &[0xAD, 0x11, 0xD0, 0xAD, 0x10, 0xD0, 0xAD, 0x11, 0xD0]);
    cpu.set_keypress(b'q');
    assert!(cpu.memory.apple_key_ready);
    assert_eq!(cpu.memory.apple_key_value, b'q');
    assert!(cpu.execute());
    assert_eq!(cpu.a, 0x80);
    assert!(cpu.execute());
    assert_eq!(cpu.a, b'Q' | 0x80);
    assert!(cpu.execute());
    assert_eq!(cpu.a, 0x00);
    assert!(cpu.zero_flag);
}

#[test]
fn program_output_reaches_the_display_register() {
    // LDA #$C8; STA $D012
    let mut cpu = cpu_with(0x2000, &[0xA9, 0xC8, 0x8D, 0x12, 0xD0]);
    assert!(cpu.execute());
    assert!(!cpu.memory.apple_output_char_waiting);
    assert!(cpu.execute());
    assert!(cpu.memory.apple_output_char_waiting);
    assert_eq!(cpu.memory.apple_output_char, b'H');
}

#[test]
fn store_to_read_only_memory_is_ignored() {
    // LDA #$55; STA $E000
    let mut cpu = cpu_with(0x2000, &[0xA9, 0x55, 0x8D, 0x00, 0xE0]);
    cpu.memory.write_with_status(0xE000, 0xAA, true);
    assert!(cpu.execute());
    assert!(cpu.execute());
    assert_eq!(cpu.memory.read(0xE000), 0xAA);
    assert_eq!(cpu.pc, 0x2005);
}

#[test]
fn pushes_and_pulls_called_directly_are_lifo() {
    let mut cpu = Cpu6502::new();
    for start in [0xFEu8, 0x00, 0x7F] {
        cpu.sp = start;
        for i in 0..256u32 {
            cpu.push_stack((i as u8) ^ 0x5A);
        }
        assert_eq!(cpu.sp, start);
        for i in (0..256u32).rev() {
            assert_eq!(cpu.pop_stack(), (i as u8) ^ 0x5A);
        }
        assert_eq!(cpu.sp, start);
    }
    cpu.sp = 0x00;
    cpu.push_stack(0xAB);
    assert_eq!(cpu.sp, 0xFF);
    assert_eq!(cpu.memory.read(0x0100), 0xAB);
    assert_eq!(cpu.pop_stack(), 0xAB);
    assert_eq!(cpu.sp, 0x00);
}
