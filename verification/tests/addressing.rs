use rust6502::cpu6502::Cpu6502;

fn cpu_with(address: u16, program: &[u8]) -> Cpu6502 {
    let mut cpu = Cpu6502::new();
    cpu.load_data_into_memory(address, program.to_vec());
    cpu.pc = address;
    cpu
}

#[test]
fn immediate_takes_the_byte_after_the_opcode() {
    let mut cpu = cpu_with(0x2000, &[0xA9, 0x42]);
    assert!(cpu.execute());
    assert_eq!(cpu.a, 0x42);
    assert_eq!(cpu.pc, 0x2002);
}

#[test]
fn zero_page() {
    let mut cpu = cpu_with(0x2000, &[0xA5, 0x80]);
    cpu.memory.write(0x0080, 0x99);
    assert!(cpu.execute());
    assert_eq!(cpu.a, 0x99);
    assert_eq!(cpu.pc, 0x2002);
}

#[test]
fn zero_page_x_wraps_within_page_zero() {
    // LDA $FF,X with X = 2 reads 0x0001, never 0x0101.
    let mut cpu = cpu_with(0x2000, &[0xB5, 0xFF]);
    cpu.x = 0x02;
    cpu.memory.write(0x0001, 0x11);
    cpu.memory.write(0x0101, 0x22);
    assert!(cpu.execute());
    assert_eq!(cpu.a, 0x11);
    assert_eq!(cpu.pc, 0x2002);
    // STA $FF,X with X = 2 writes 0x0001.
    let mut cpu = cpu_with(0x2000, &[0x95, 0xFF]);
    cpu.x = 0x02;
    cpu.a = 0x77;
    assert!(cpu.execute());
    assert_eq!(cpu.memory.read(0x0001), 0x77);
    assert_eq!(cpu.memory.read(0x0101), 0x00);
}

#[test]
fn zero_page_x_without_wrap() {
    let mut cpu = cpu_with(0x2000, &[0xB5, 0x10]);
    cpu.x = 0x05;
    cpu.memory.write(0x0015, 0x33);
    assert!(cpu.execute());
    assert_eq!(cpu.a, 0x33);
}

#[test]
fn zero_page_y_wraps_within_page_zero() {
    // LDX $80,Y with Y = 0x90 reads 0x0010.
    let mut cpu = cpu_with(0x2000, &[0xB6, 0x80]);
    cpu.y = 0x90;
    cpu.memory.write(0x0010, 0x44);
    cpu.memory.write(0x0110, 0x55);
    assert!(cpu.execute());
    assert_eq!(cpu.x, 0x44);
    // STX $80,Y
    let mut cpu = cpu_with(0x2000, &[0x96, 0x80]);
    cpu.y = 0x90;
    cpu.x = 0x66;
    assert!(cpu.execute());
    assert_eq!(cpu.memory.read(0x0010), 0x66);
    assert_eq!(cpu.memory.read(0x0110), 0x00);
}

#[test]
fn absolute_is_little_endian() {
    let mut cpu = cpu_with(0x2000, &[0xAD, 0x34, 0x12]);
    cpu.memory.write(0x1234, 0x56);
    cpu.memory.write(0x3412, 0x78);
    assert!(cpu.execute());
    assert_eq!(cpu.a, 0x56);
    assert_eq!(cpu.pc, 0x2003);
}

#[test]
fn absolute_operand_wraps_at_the_top_of_memory() {
    // The opcode is the last byte of memory; its operand is at 0x0000.
    let mut cpu = Cpu6502::new();
    cpu.memory.write(0xFFFF, 0xAD);
    cpu.memory.write(0x0000, 0x34);
    cpu.memory.write(0x0001, 0x12);
    cpu.memory.write(0x1234, 0x9A);
    cpu.pc = 0xFFFF;
    assert!(cpu.execute());
    assert_eq!(cpu.a, 0x9A);
    assert_eq!(cpu.pc, 0x0002);
    // The opcode is the last but one byte; the operand straddles the top.
    let mut cpu = Cpu6502::new();
    cpu.memory.write(0xFFFE, 0xAD);
    cpu.memory.write(0xFFFF, 0x34);
    cpu.memory.write(0x0000, 0x12);
    cpu.memory.write(0x1234, 0x9B);
    cpu.pc = 0xFFFE;
    assert!(cpu.execute());
    assert_eq!(cpu.a, 0x9B);
    assert_eq!(cpu.pc, 0x0001);
}

#[test]
fn absolute_x_crosses_pages_and_wraps_at_16_bits() {
    let mut cpu = cpu_with(0x2000, &[0xBD, 0xFF, 0x12]);
    cpu.x = 0x01;
    cpu.memory.write(0x1300, 0x21);
    assert!(cpu.execute());
    assert_eq!(cpu.a, 0x21);
    assert_eq!(cpu.pc, 0x2003);
    let mut cpu = cpu_with(0x2000, &[0xBD, 0xFF, 0xFF]);
    cpu.x = 0x02;
    cpu.memory.write(0x0001, 0x22);
    assert!(cpu.execute());
    assert_eq!(cpu.a, 0x22);
}

#[test]
fn absolute_y_crosses_pages_and_wraps_at_16_bits() {
    let mut cpu = cpu_with(0x2000, &[0xB9, 0x80, 0x12]);
    cpu.y = 0xFF;
    cpu.memory.write(0x137F, 0x31);
    assert!(cpu.execute());
    assert_eq!(cpu.a, 0x31);
    let mut cpu = cpu_with(0x2000, &[0xB9, 0xF0, 0xFF]);
    cpu.y = 0x20;
    cpu.memory.write(0x0010, 0x32);
    assert!(cpu.execute());
    assert_eq!(cpu.a, 0x32);
    // STA absolute,Y
    let mut cpu = cpu_with(0x2000, &[0x99, 0x00, 0x40]);
    cpu.y = 0x05;
    cpu.a = 0x6D;
    assert!(cpu.execute());
    assert_eq!(cpu.memory.read(0x4005), 0x6D);
}

#[test]
fn indirect_x_adds_the_index_before_the_lookup() {
    let mut cpu = cpu_with(0x2000, &[0xA1, 0x20]);
    cpu.x = 0x04;
    cpu.memory.write(0x0024, 0x00);
    cpu.memory.write(0x0025, 0x30);
    cpu.memory.write(0x3000, 0x41);
    assert!(cpu.execute());
    assert_eq!(cpu.a, 0x41);
    assert_eq!(cpu.pc, 0x2002);
}

#[test]
fn indirect_x_pointer_wraps_within_page_zero() {
    // The sum of operand and X wraps.
    let mut cpu = cpu_with(0x2000, &[0xA1, 0xFE]);
    cpu.x = 0x04;
    cpu.memory.write(0x0002, 0x10);
    cpu.memory.write(0x0003, 0x31);
    cpu.memory.write(0x3110, 0x42);
    assert!(cpu.execute());
    assert_eq!(cpu.a, 0x42);
    // The pointer sits in the last cell of page zero: its high byte is
    // cell 0x00, not 0x0100.
    let mut cpu = cpu_with(0x2000, &[0xA1, 0xFF]);
    cpu.x = 0x00;
    cpu.memory.write(0x00FF, 0x20);
    cpu.memory.write(0x0000, 0x32);
    cpu.memory.write(0x0100, 0x77);
    cpu.memory.write(0x3220, 0x43);
    assert!(cpu.execute());
    assert_eq!(cpu.a, 0x43);
}

#[test]
fn indirect_y_adds_the_index_after_the_lookup() {
    let mut cpu = cpu_with(0x2000, &[0xB1, 0x20]);
    cpu.y = 0x04;
    cpu.memory.write(0x0020, 0x00);
    cpu.memory.write(0x0021, 0x30);
    cpu.memory.write(0x3004, 0x51);
    assert!(cpu.execute());
    assert_eq!(cpu.a, 0x51);
    assert_eq!(cpu.pc, 0x2002);
}

#[test]
fn indirect_y_crosses_pages_and_wraps() {
    // The index carries into the high byte.
    let mut cpu = cpu_with(0x2000, &[0xB1, 0x20]);
    cpu.y = 0x10;
    cpu.memory.write(0x0020, 0xF8);
    cpu.memory.write(0x0021, 0x30);
    cpu.memory.write(0x3108, 0x52);
    assert!(cpu.execute());
    assert_eq!(cpu.a, 0x52);
    // The sum wraps at 16 bits.
    let mut cpu = cpu_with(0x2000, &[0xB1, 0x20]);
    cpu.y = 0x10;
    cpu.memory.write(0x0020, 0xF8);
    cpu.memory.write(0x0021, 0xFF);
    cpu.memory.write(0x0008, 0x53);
    assert!(cpu.execute());
    assert_eq!(cpu.a, 0x53);
    // The pointer sits in the last cell of page zero.
    let mut cpu = cpu_with(0x2000, &[0xB1, 0xFF]);
    cpu.y = 0x01;
    cpu.memory.write(0x00FF, 0x20);
    cpu.memory.write(0x0000, 0x32);
    cpu.memory.write(0x0100, 0x77);
    cpu.memory.write(0x3221, 0x54);
    assert!(cpu.execute());
    assert_eq!(cpu.a, 0x54);
}

#[test]
fn ora_at_0x11_is_indirect_y() {
    let mut cpu = cpu_with(0x2000, &[0x11, 0x20]);
    cpu.a = 0x01;
    cpu.y = 0x02;
    cpu.memory.write(0x0020, 0x00);
    cpu.memory.write(0x0021, 0x30);
    cpu.memory.write(0x3002, 0x80);
    assert!(cpu.execute());
    assert_eq!(cpu.a, 0x81);
    assert_eq!(cpu.pc, 0x2002);
}

#[test]
fn stores_in_every_mode() {
    // STA zp; STA abs; STA (zp,X); STA (zp),Y; STA abs,X; STX zp; STX abs;
    // STY zp; STY zp,X; STY abs
    let mut cpu = cpu_with(
        0x2000,
        &[
            0x85, 0x10, 0x8D, 0x00, 0x30, 0x81, 0x40, 0x91, 0x50, 0x9D, 0x00, 0x31, 0x86, 0x11,
            0x8E, 0x01, 0x30, 0x84, 0x12, 0x94, 0x12, 0x8C, 0x02, 0x30,
        ],
    );
    cpu.a = 0xA1;
    cpu.x = 0x02;
    cpu.y = 0x03;
    cpu.memory.write(0x0042, 0x00);
    cpu.memory.write(0x0043, 0x32);
    cpu.memory.write(0x0050, 0x00);
    cpu.memory.write(0x0051, 0x33);
    cpu.carry_flag = true;
    cpu.zero_flag = true;
    for _ in 0..10 {
        assert!(cpu.execute());
    }
    assert_eq!(cpu.memory.read(0x0010), 0xA1);
    assert_eq!(cpu.memory.read(0x3000), 0xA1);
    assert_eq!(cpu.memory.read(0x3200), 0xA1);
    assert_eq!(cpu.memory.read(0x3303), 0xA1);
    assert_eq!(cpu.memory.read(0x3102), 0xA1);
    assert_eq!(cpu.memory.read(0x0011), 0x02);
    assert_eq!(cpu.memory.read(0x3001), 0x02);
    assert_eq!(cpu.memory.read(0x0012), 0x03);
    assert_eq!(cpu.memory.read(0x0014), 0x03);
    assert_eq!(cpu.memory.read(0x3002), 0x03);
    assert_eq!(cpu.pc, 0x2018);
    // Stores change no flag.
    assert!(cpu.carry_flag && cpu.zero_flag && !cpu.negative_flag);
}

#[test]
fn each_operation_reads_through_each_of_its_modes() {
    // For every operand-reading opcode: place 0x5A where the mode finds it
    // and check the operation saw it.
    let modes: [(&str, usize); 9] = [
        ("imm", 2),
        ("zp", 2),
        ("zpx", 2),
        ("zpy", 2),
        ("abs", 3),
        ("abx", 3),
        ("aby", 3),
        ("inx", 2),
        ("iny", 2),
    ];
    let table: [(u8, &str, &str); 58] = [
        (0x01, "ora", "inx"),
        (0x05, "ora", "zp"),
        (0x09, "ora", "imm"),
        (0x0d, "ora", "abs"),
        (0x11, "ora", "iny"),
        (0x15, "ora", "zpx"),
        (0x19, "ora", "aby"),
        (0x1d, "ora", "abx"),
        (0x21, "and", "inx"),
        (0x25, "and", "zp"),
        (0x29, "and", "imm"),
        (0x2d, "and", "abs"),
        (0x31, "and", "iny"),
        (0x35, "and", "zpx"),
        (0x39, "and", "aby"),
        (0x3d, "and", "abx"),
        (0x41, "eor", "inx"),
        (0x45, "eor", "zp"),
        (0x49, "eor", "imm"),
        (0x4d, "eor", "abs"),
        (0x51, "eor", "iny"),
        (0x55, "eor", "zpx"),
        (0x59, "eor", "aby"),
        (0x5d, "eor", "abx"),
        (0x61, "adc", "inx"),
        (0x65, "adc", "zp"),
        (0x69, "adc", "imm"),
        (0x6d, "adc", "abs"),
        (0x71, "adc", "iny"),
        (0x75, "adc", "zpx"),
        (0x79, "adc", "aby"),
        (0x7d, "adc", "abx"),
        (0xa1, "lda", "inx"),
        (0xa5, "lda", "zp"),
        (0xa9, "lda", "imm"),
        (0xad, "lda", "abs"),
        (0xb1, "lda", "iny"),
        (0xb5, "lda", "zpx"),
        (0xb9, "lda", "aby"),
        (0xbd, "lda", "abx"),
        (0xe1, "sbc", "inx"),
        (0xe5, "sbc", "zp"),
        (0xe9, "sbc", "imm"),
        (0xed, "sbc", "abs"),
        (0xf1, "sbc", "iny"),
        (0xf5, "sbc", "zpx"),
        (0xf9, "sbc", "aby"),
        (0xfd, "sbc", "abx"),
        (0xa2, "ldx", "imm"),
        (0xa6, "ldx", "zp"),
        (0xb6, "ldx", "zpy"),
        (0xae, "ldx", "abs"),
        (0xbe, "ldx", "aby"),
        (0xa0, "ldy", "imm"),
        (0xa4, "ldy", "zp"),
        (0xb4, "ldy", "zpx"),
        (0xac, "ldy", "abs"),
        (0xbc, "ldy", "abx"),
    ];
    for (opcode, op, mode) in table {
        let mut cpu = Cpu6502::new();
        let operand: u8 = 0x5A;
        cpu.x = 0x03;
        cpu.y = 0x05;
        let bytes: Vec<u8> = match mode {
            "imm" => vec![opcode, operand],
            "zp" => {
                cpu.memory.write(0x0040, operand);
                vec![opcode, 0x40]
            }
            "zpx" => {
                cpu.memory.write(0x0043, operand);
                vec![opcode, 0x40]
            }
            "zpy" => {
                cpu.memory.write(0x0045, operand);
                vec![opcode, 0x40]
            }
            "abs" => {
                cpu.memory.write(0x3040, operand);
                vec![opcode, 0x40, 0x30]
            }
            "abx" => {
                cpu.memory.write(0x3043, operand);
                vec![opcode, 0x40, 0x30]
            }
            "aby" => {
                cpu.memory.write(0x3045, operand);
                vec![opcode, 0x40, 0x30]
            }
            "inx" => {
                cpu.memory.write(0x0043, 0x00);
                cpu.memory.write(0x0044, 0x31);
                cpu.memory.write(0x3100, operand);
                vec![opcode, 0x40]
            }
            _ => {
                cpu.memory.write(0x0040, 0x00);
                cpu.memory.write(0x0041, 0x31);
                cpu.memory.write(0x3105, operand);
                vec![opcode, 0x40]
            }
        };
        let length = modes.iter().find(|m| m.0 == mode).map(|m| m.1).unwrap_or(0);
        assert_eq!(bytes.len(), length);
        cpu.load_data_into_memory(0x2000, bytes);
        cpu.pc = 0x2000;
        cpu.a = 0x0F;
        cpu.carry_flag = op == "sbc";
        assert!(cpu.execute(), "opcode {opcode:#04x}");
        assert_eq!(cpu.pc as usize, 0x2000 + length, "opcode {opcode:#04x}");
        match op {
            "ora" => assert_eq!(cpu.a, 0x0F | operand, "opcode {opcode:#04x}"),
            "and" => assert_eq!(cpu.a, 0x0F & operand, "opcode {opcode:#04x}"),
            "eor" => assert_eq!(cpu.a, 0x0F ^ operand, "opcode {opcode:#04x}"),
            "adc" => assert_eq!(cpu.a, 0x0F + operand, "opcode {opcode:#04x}"),
            "sbc" => assert_eq!(cpu.a, 0x0Fu8.wrapping_sub(operand), "opcode {opcode:#04x}"),
            "lda" => assert_eq!(cpu.a, operand, "opcode {opcode:#04x}"),
            "ldx" => assert_eq!(cpu.x, operand, "opcode {opcode:#04x}"),
            _ => assert_eq!(cpu.y, operand, "opcode {opcode:#04x}"),
        }
    }
}

#[test]
fn compare_reads_through_each_of_its_modes() {
    let table: [(u8, usize, u16); 12] = [
        (0xc9, 2, 0),
        (0xc5, 2, 0x0040),
        (0xd5, 2, 0x0043),
        (0xcd, 3, 0x3040),
        (0xdd, 3, 0x3043),
        (0xd9, 3, 0x3045),
        (0xe0, 2, 0),
        (0xe4, 2, 0x0040),
        (0xec, 3, 0x3040),
        (0xc0, 2, 0),
        (0xc4, 2, 0x0040),
        (0xcc, 3, 0x3040),
    ];
    for (opcode, length, place) in table {
        let mut cpu = Cpu6502::new();
        cpu.a = 0x5A;
        cpu.x = 0x03;
        cpu.y = 0x05;
        let register = match opcode {
            0xe0 | 0xe4 | 0xec => cpu.x,
            0xc0 | 0xc4 | 0xcc => cpu.y,
            _ => cpu.a,
        };
        let bytes = if length == 2 && place == 0 {
            vec![opcode, register]
        } else {
            cpu.memory.write(place, register);
            if length == 2 {
                vec![opcode, 0x40]
            } else {
                vec![opcode, 0x40, 0x30]
            }
        };
        cpu.load_data_into_memory(0x2000, bytes);
        cpu.pc = 0x2000;
        assert!(cpu.execute(), "opcode {opcode:#04x}");
        assert!(cpu.zero_flag && cpu.carry_flag, "opcode {opcode:#04x}");
        assert_eq!(cpu.pc as usize, 0x2000 + length);
    }
    // CMP (zp,X) and CMP (zp),Y
    let mut cpu = cpu_with(0x2000, &[0xc1, 0x40, 0xd1, 0x50]);
    cpu.a = 0x10;
    cpu.x = 0x03;
    cpu.y = 0x05;
    cpu.memory.write(0x0043, 0x00);
    cpu.memory.write(0x0044, 0x31);
    cpu.memory.write(0x3100, 0x11);
    cpu.memory.write(0x0050, 0x00);
    cpu.memory.write(0x0051, 0x32);
    cpu.memory.write(0x3205, 0x0F);
    assert!(cpu.execute());
    assert!(!cpu.carry_flag && !cpu.zero_flag && cpu.negative_flag);
    assert!(cpu.execute());
    assert!(cpu.carry_flag && !cpu.zero_flag && !cpu.negative_flag);
}

#[test]
fn modify_instructions_find_their_operand_in_each_mode() {
    // INC and DEC in zero page, zero page,X, absolute and absolute,X.
    let table: [(u8, usize, u16, u8); 8] = [
        (0xe6, 2, 0x0040, 0x11),
        (0xf6, 2, 0x0043, 0x11),
        (0xee, 3, 0x3040, 0x11),
        (0xfe, 3, 0x3043, 0x11),
        (0xc6, 2, 0x0040, 0x0F),
        (0xd6, 2, 0x0043, 0x0F),
        (0xce, 3, 0x3040, 0x0F),
        (0xde, 3, 0x3043, 0x0F),
    ];
    for (opcode, length, place, expected) in table {
        let mut cpu = cpu_with(0x2000, &[opcode, 0x40, 0x30]);
        cpu.x = 0x03;
        cpu.memory.write(place, 0x10);
        assert!(cpu.execute(), "opcode {opcode:#04x}");
        assert_eq!(cpu.memory.read(place), expected, "opcode {opcode:#04x}");
        assert_eq!(cpu.pc as usize, 0x2000 + length);
    }
    // The shifts and rotates in the same four modes.
    let shifts: [(u8, usize, u16, u8); 16] = [
        (0x06, 2, 0x0040, 0x82),
        (0x16, 2, 0x0043, 0x82),
        (0x0e, 3, 0x3040, 0x82),
        (0x1e, 3, 0x3043, 0x82),
        (0x26, 2, 0x0040, 0x83),
        (0x36, 2, 0x0043, 0x83),
        (0x2e, 3, 0x3040, 0x83),
        (0x3e, 3, 0x3043, 0x83),
        (0x46, 2, 0x0040, 0x20),
        (0x56, 2, 0x0043, 0x20),
        (0x4e, 3, 0x3040, 0x20),
        (0x5e, 3, 0x3043, 0x20),
        (0x66, 2, 0x0040, 0xA0),
        (0x76, 2, 0x0043, 0xA0),
        (0x6e, 3, 0x3040, 0xA0),
        (0x7e, 3, 0x3043, 0xA0),
    ];
    for (opcode, length, place, expected) in shifts {
        let mut cpu = cpu_with(0x2000, &[opcode, 0x40, 0x30]);
        cpu.x = 0x03;
        cpu.carry_flag = true;
        cpu.memory.write(place, 0x41);
        assert!(cpu.execute(), "opcode {opcode:#04x}");
        assert_eq!(cpu.memory.read(place), expected, "opcode {opcode:#04x}");
        assert_eq!(cpu.pc as usize, 0x2000 + length);
    }
}

#[test]
fn modify_of_read_only_cell_sets_flags_but_not_memory() {
    // INC $E000 where the cell is protected.
    let mut cpu = cpu_with(0x2000, &[0xEE, 0x00, 0xE0]);
    cpu.memory.write_with_status(0xE000, 0xFF, true);
    assert!(cpu.execute());
    assert_eq!(cpu.memory.read(0xE000), 0xFF);
    assert!(cpu.zero_flag);
}
