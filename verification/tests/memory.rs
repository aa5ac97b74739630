use rust6502::memory::MemoryArray;

#[test]
fn fresh_memory_is_zeroed_and_idle() {
    let mut m = MemoryArray::init();
    for address in [0x0000u16, 0x0001, 0x00FF, 0x0100, 0x01FF, 0x8000, 0xFFFE, 0xFFFF] {
        assert_eq!(m.read(address), 0);
    }
    assert!(!m.apple_key_ready);
    assert_eq!(m.apple_key_value, 0);
    assert!(!m.apple_output_char_waiting);
    assert_eq!(m.apple_output_char, 0);
}

#[test]
fn write_then_read_returns_value() {
    let mut m = MemoryArray::init();
    m.write(0x1234, 0xAB);
    assert_eq!(m.read(0x1234), 0xAB);
    assert_eq!(m.read(0x1233), 0);
    assert_eq!(m.read(0x1235), 0);
    m.write(0x1234, 0xCD);
    assert_eq!(m.read(0x1234), 0xCD);
}

#[test]
fn every_address_is_valid() {
    let mut m = MemoryArray::init();
    m.write(0x0000, 1);
    m.write(0xFFFF, 2);
    assert_eq!(m.read(0x0000), 1);
    assert_eq!(m.read(0xFFFF), 2);
}

#[test]
fn write_to_read_only_cell_is_silent_no_op() {
    let mut m = MemoryArray::init();
    m.write_with_status(0xE000, 0x4C, true);
    let before = m.read(0xE000);
    m.write(0xE000, 0x00);
    assert_eq!(m.read(0xE000), before);
    assert_eq!(m.read(0xE000), 0x4C);
    // A neighbour is still writable.
    m.write(0xE001, 0x77);
    assert_eq!(m.read(0xE001), 0x77);
}

#[test]
fn privileged_write_overrides_protection_and_can_lift_it() {
    let mut m = MemoryArray::init();
    m.write_with_status(0x0200, 0x11, true);
    m.write_with_status(0x0200, 0x22, true);
    assert_eq!(m.read(0x0200), 0x22);
    m.write(0x0200, 0x33);
    assert_eq!(m.read(0x0200), 0x22);
    m.write_with_status(0x0200, 0x44, false);
    assert_eq!(m.read(0x0200), 0x44);
    m.write(0x0200, 0x55);
    assert_eq!(m.read(0x0200), 0x55);
}

#[test]
fn keyboard_control_reports_pending_key() {
    let mut m = MemoryArray::init();
    assert_eq!(m.read(0xD011), 0x00);
    m.apple_key_ready = true;
    m.apple_key_value = b'A';
    assert_eq!(m.read(0xD011), 0x80);
    // Polling the control register does not consume the key.
    assert_eq!(m.read(0xD011), 0x80);
    assert!(m.apple_key_ready);
}

#[test]
fn keyboard_data_sets_high_bit_and_clears_pending() {
    let mut m = MemoryArray::init();
    m.apple_key_ready = true;
    m.apple_key_value = b'A';
    assert_eq!(m.read(0xD010), 0xC1);
    assert!(!m.apple_key_ready);
    assert_eq!(m.read(0xD011), 0x00);
}

#[test]
fn keyboard_data_folds_case() {
    let mut m = MemoryArray::init();
    for (typed, seen) in [(b'a', b'A'), (b'z', b'Z'), (b'm', b'M'), (b'A', b'A'), (b'Z', b'Z')] {
        m.apple_key_ready = true;
        m.apple_key_value = typed;
        assert_eq!(m.read(0xD010), seen | 0x80);
    }
    // The characters around the lower-case range are kept.
    for key in [0x60u8, 0x7B, 0x30, 0x20] {
        m.apple_key_ready = true;
        m.apple_key_value = key;
        assert_eq!(m.read(0xD010), key | 0x80);
    }
}

#[test]
fn keyboard_data_normalizes_line_ends() {
    let mut m = MemoryArray::init();
    for key in [10u8, 13, 92] {
        m.apple_key_ready = true;
        m.apple_key_value = key;
        assert_eq!(m.read(0xD010), 0x8D);
        assert_eq!(m.apple_key_value, 13);
    }
}

#[test]
fn keyboard_data_ignores_stored_cell() {
    let mut m = MemoryArray::init();
    m.write(0xD010, 0x55);
    m.write(0xD011, 0x55);
    assert_eq!(m.read(0xD010), 0x80);
    assert_eq!(m.read(0xD011), 0x00);
}

#[test]
fn display_register_reads_zero() {
    let mut m = MemoryArray::init();
    m.write(0xD012, 0xC1);
    assert_eq!(m.read(0xD012), 0x00);
    m.write(0xD0F2, 0xC1);
    assert_eq!(m.read(0xD0F2), 0x00);
}

#[test]
fn display_write_emits_masked_character() {
    let mut m = MemoryArray::init();
    m.write(0xD012, 0xC1);
    assert!(m.apple_output_char_waiting);
    assert_eq!(m.apple_output_char, 0x41);
    m.apple_output_char_waiting = false;
    m.write(0xD012, 0x42);
    assert!(m.apple_output_char_waiting);
    assert_eq!(m.apple_output_char, 0x42);
}

#[test]
fn display_write_translates_carriage_return() {
    let mut m = MemoryArray::init();
    m.write(0xD012, 0x8D);
    assert!(m.apple_output_char_waiting);
    assert_eq!(m.apple_output_char, 0x0A);
    m.write(0xD012, 0x0D);
    assert_eq!(m.apple_output_char, 0x0A);
    m.write(0xD012, 0x0A);
    assert_eq!(m.apple_output_char, 0x0A);
}

#[test]
fn display_write_emits_even_when_cell_is_read_only() {
    let mut m = MemoryArray::init();
    m.write_with_status(0xD012, 0x00, true);
    m.write(0xD012, 0xC8);
    assert!(m.apple_output_char_waiting);
    assert_eq!(m.apple_output_char, 0x48);
}

#[test]
fn display_mirror_emits_too() {
    let mut m = MemoryArray::init();
    m.write(0xD0F2, 0xC9);
    assert!(m.apple_output_char_waiting);
    assert_eq!(m.apple_output_char, 0x49);
}

#[test]
fn ordinary_write_leaves_devices_alone() {
    let mut m = MemoryArray::init();
    m.apple_key_ready = true;
    m.apple_key_value = 0x41;
    m.write(0x0300, 0x99);
    assert!(m.apple_key_ready);
    assert_eq!(m.apple_key_value, 0x41);
    assert!(!m.apple_output_char_waiting);
    m.write_with_status(0xD012, 0xC1, false);
    assert!(!m.apple_output_char_waiting);
}

#[test]
fn output_character_is_taken_once() {
    let mut m = MemoryArray::init();
    assert_eq!(m.take_output_char(), None);
    m.write(0xD012, 0xC1);
    assert_eq!(m.take_output_char(), Some(0x41));
    assert!(!m.apple_output_char_waiting);
    assert_eq!(m.take_output_char(), None);
    m.write(0xD012, 0x8D);
    m.write(0xD012, 0xC2);
    assert_eq!(m.take_output_char(), Some(0x42));
}
