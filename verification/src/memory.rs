//! 64 KiB of memory for the 6502, with the keyboard and display registers
//! of an Apple-1 style peripheral interface mapped into it.

use vstd::prelude::*;

verus! {

/// Number of addressable cells.
pub const MEMORY_SIZE: usize = 65536;

/// Keyboard data register: reading it consumes the pending key.
pub const KEYBOARD_DATA: u16 = 0xD010;

/// Keyboard control register: reads 0x80 while a key is pending.
pub const KEYBOARD_CONTROL: u16 = 0xD011;

/// Display data register: writing it emits a character.
pub const DISPLAY_DATA: u16 = 0xD012;

/// Second address at which the display data register is decoded.
pub const DISPLAY_DATA_MIRROR: u16 = 0xD0F2;

/// Whether `address` selects the display data register.
pub open spec fn is_display(address: u16) -> bool {
    address == DISPLAY_DATA || address == DISPLAY_DATA_MIRROR
}

/// The key code the keyboard register settles on for a typed key: a
/// backslash or a line feed becomes a carriage return, a lower-case letter
/// becomes its upper-case form, and everything else is kept.
pub open spec fn normalize_key(key: u8) -> u8 {
    if key == 92 || key == 10 {
        13
    } else if 0x61 <= key <= 0x7A {
        (key - 32) as u8
    } else {
        key
    }
}

/// The byte with bit 7 forced high.
pub open spec fn with_high_bit(value: u8) -> u8 {
    if value >= 128 {
        value
    } else {
        (value + 128) as u8
    }
}

/// The character the display emits for a byte written to it: the low seven
/// bits, with a carriage return turned into a line feed.
pub open spec fn display_char(value: u8) -> u8 {
    if value % 128 == 13 {
        10
    } else {
        value % 128
    }
}

/// The address `offset` cells after `address`, modulo 65536.
pub open spec fn offset_address(address: u16, offset: int) -> u16 {
    ((address + offset) % 65536) as u16
}

/// One byte of memory with its write protection.
#[derive(Debug, Copy, Clone)]
pub struct MemoryCell {
    /// The stored byte.
    pub value: u8,
    /// Whether an ordinary write leaves the byte alone.
    pub readonly: bool,
}

/// Mathematical model of the memory: the stored bytes, the write protection
/// of each cell, and the state of the two devices.
pub struct MemState {
    /// The cells, indexed by address.
    pub cells: Seq<MemoryCell>,
    /// A key is waiting in the keyboard register.
    pub key_ready: bool,
    /// Key code held by the keyboard register.
    pub key_value: u8,
    /// A character is waiting to be drained from the display register.
    pub output_waiting: bool,
    /// Character last emitted by the display register.
    pub output_char: u8,
}

impl MemState {
    /// Every 16-bit address has a cell.
    pub open spec fn wf(self) -> bool {
        self.cells.len() == MEMORY_SIZE
    }

    /// The byte that a read of `address` returns.
    pub open spec fn read_value(self, address: u16) -> u8 {
        if is_display(address) {
            0
        } else if address == KEYBOARD_DATA {
            with_high_bit(normalize_key(self.key_value))
        } else if address == KEYBOARD_CONTROL {
            if self.key_ready {
                0x80
            } else {
                0
            }
        } else {
            self.cells[address as int].value
        }
    }

    /// Whether the cell at `address` is write-protected.
    pub open spec fn is_readonly(self, address: u16) -> bool {
        self.cells[address as int].readonly
    }

    /// The memory after a read of `address`: reading the keyboard data
    /// register settles the key code and clears the pending flag; any other
    /// read changes nothing.
    pub open spec fn after_read(self, address: u16) -> MemState {
        if address == KEYBOARD_DATA {
            MemState { key_ready: false, key_value: normalize_key(self.key_value), ..self }
        } else {
            self
        }
    }

    /// The memory after a store of `value` to `address`: the cell takes the
    /// value unless it is write-protected, and a store to the display
    /// register emits a character whether or not its cell is protected.
    pub open spec fn after_write(self, address: u16, value: u8) -> MemState {
        let stored = if self.is_readonly(address) {
            self
        } else {
            MemState {
                cells: self.cells.update(
                    address as int,
                    MemoryCell { value: value, ..self.cells[address as int] },
                ),
                ..self
            }
        };
        if is_display(address) {
            MemState { output_waiting: true, output_char: display_char(value), ..stored }
        } else {
            stored
        }
    }

    /// The memory after the bytes of `data` have been stored, in order, at
    /// `address` and the addresses after it, with 16-bit wraparound. Each
    /// byte is stored as `after_write` stores it.
    pub open spec fn after_load(self, address: u16, data: Seq<u8>) -> MemState
        decreases data.len(),
    {
        if data.len() == 0 {
            self
        } else {
            self.after_load(address, data.drop_last()).after_write(
                offset_address(address, data.len() - 1),
                data.last(),
            )
        }
    }

    /// The memory after a privileged store, which replaces both the byte and
    /// the protection of the cell and reaches no device.
    pub open spec fn after_write_with_status(self, address: u16, value: u8, ro: bool) -> MemState {
        MemState {
            cells: self.cells.update(address as int, MemoryCell { value: value, readonly: ro }),
            ..self
        }
    }
}

/// An address lies `i` cells after `address`, modulo 65536, exactly when
/// their difference modulo 65536 is `i`.
proof fn lemma_offset_address(address: u16, i: int, a: int)
    requires
        0 <= i < 65536,
        0 <= a < 65536,
    ensures
        (offset_address(address, i) == a) == ((a - address) % 65536 == i),
{
}

/// What a load of at most 65536 bytes leaves: the cell `k` places after
/// `address`, modulo 65536, holds byte `k` of the data if there is one and
/// the cell is writable, and is unchanged otherwise. No protection changes,
/// and the keyboard is untouched.
pub proof fn lemma_after_load(m: MemState, address: u16, data: Seq<u8>)
    requires
        m.wf(),
        data.len() <= 65536,
    ensures
        m.after_load(address, data).wf(),
        m.after_load(address, data).key_ready == m.key_ready,
        m.after_load(address, data).key_value == m.key_value,
        forall|a: int|
            0 <= a < 65536 ==> (#[trigger] m.after_load(address, data).cells[a]) == (if (a
                - address) % 65536 < data.len() && !m.cells[a].readonly {
                MemoryCell { value: data[(a - address) % 65536], readonly: false }
            } else {
                m.cells[a]
            }),
    decreases data.len(),
{
    if data.len() > 0 {
        let front = data.drop_last();
        let n = data.len() as int;
        let before = m.after_load(address, front);
        let target = offset_address(address, n - 1);
        lemma_after_load(m, address, front);
        assert(m.after_load(address, data) == before.after_write(target, data.last()));
        assert forall|a: int| 0 <= a < 65536 implies (#[trigger] m.after_load(
            address,
            data,
        ).cells[a]) == (if (a - address) % 65536 < data.len() && !m.cells[a].readonly {
            MemoryCell { value: data[(a - address) % 65536], readonly: false }
        } else {
            m.cells[a]
        }) by {
            lemma_offset_address(address, n - 1, a);
            let k = (a - address) % 65536;
            if k < n - 1 {
                assert(front[k] == data[k]);
            }
        }
    }
}

/// The whole address space together with the device registers.
#[derive(Debug, Copy, Clone)]
pub struct MemoryArray {
    /// The cells, indexed by address.
    pub memory: [MemoryCell; 65536],
    /// Set by a write to the display register; cleared by whoever drains it.
    pub apple_output_char_waiting: bool,
    /// The character last written to the display register.
    pub apple_output_char: u8,
    /// Set when a key is placed in the keyboard register; cleared by a read
    /// of the keyboard data register.
    pub apple_key_ready: bool,
    /// The key code in the keyboard register.
    pub apple_key_value: u8,
}

impl View for MemoryArray {
    type V = MemState;

    open spec fn view(&self) -> MemState {
        MemState {
            cells: self.memory@,
            key_ready: self.apple_key_ready,
            key_value: self.apple_key_value,
            output_waiting: self.apple_output_char_waiting,
            output_char: self.apple_output_char,
        }
    }
}

impl MemoryArray {
    /// Builds the zeroed memory.
    fn new() -> (m: MemoryArray)
        ensures
            m@.wf(),
            forall|a: int|
                0 <= a < MEMORY_SIZE ==> m@.cells[a] == (MemoryCell { value: 0, readonly: false }),
            !m@.key_ready,
            m@.key_value == 0,
            !m@.output_waiting,
            m@.output_char == 0,
    {
        let cell = MemoryCell { value: 0, readonly: false };
        let cells = [cell;65536];
        assert forall|a: int| 0 <= a < MEMORY_SIZE implies cells@[a] == cell by {
            assert(cells == vstd::array::spec_array_fill_for_copy_type::<MemoryCell, 65536>(cell));
        }
        MemoryArray {
            memory: cells,
            apple_output_char_waiting: false,
            apple_output_char: 0,
            apple_key_ready: false,
            apple_key_value: 0,
        }
    }

    /// A memory of zeroed, writable cells with idle devices.
    pub fn init() -> (m: MemoryArray)
        ensures
            m@.wf(),
            forall|a: int|
                0 <= a < MEMORY_SIZE ==> m@.cells[a] == (MemoryCell { value: 0, readonly: false }),
            !m@.key_ready,
            m@.key_value == 0,
            !m@.output_waiting,
            m@.output_char == 0,
    {
        MemoryArray::new()
    }

    /// Reads the byte at `address`, with the side effect the address has.
    pub fn read(&mut self, address: u16) -> (value: u8)
        ensures
            value == old(self)@.read_value(address),
            final(self)@ == old(self)@.after_read(address),
    {
        if address == DISPLAY_DATA || address == DISPLAY_DATA_MIRROR {
            return 0x00;
        }
        if address == KEYBOARD_DATA {
            let key = self.apple_key_value;
            if key == 92 {
                self.apple_key_value = 10;
            }
            if self.apple_key_value >= 0x61 && self.apple_key_value <= 0x7A {
                let k = self.apple_key_value;
                assert(0x61 <= k <= 0x7A ==> k & 0x5f == (k - 32) as u8) by (bit_vector);
                self.apple_key_value = k & 0x5f;
            }
            if self.apple_key_value == 10 {
                self.apple_key_value = 13;
            }
            self.apple_key_ready = false;
            let n = self.apple_key_value;
            assert(n | 0x80 == if n >= 128 {
                n
            } else {
                (n + 128) as u8
            }) by (bit_vector);
            assert(self@ =~= old(self)@.after_read(address));
            return self.apple_key_value | 0x80;
        }
        if address == KEYBOARD_CONTROL {
            if self.apple_key_ready {
                return 0x80;
            } else {
                return 0x00;
            }
        }
        self.memory[address as usize].value
    }

    /// Takes the character waiting in the display register, if there is
    /// one, and marks the register as drained.
    pub fn take_output_char(&mut self) -> (out: Option<u8>)
        ensures
            out == (if old(self)@.output_waiting {
                Some(old(self)@.output_char)
            } else {
                None
            }),
            final(self)@ == (MemState { output_waiting: false, ..old(self)@ }),
    {
        if self.apple_output_char_waiting {
            self.apple_output_char_waiting = false;
            Some(self.apple_output_char)
        } else {
            None
        }
    }

    /// Stores `value` and the protection `ro` at `address`, whatever the
    /// protection of the cell was.
    pub fn write_with_status(&mut self, address: u16, value: u8, ro: bool)
        ensures
            final(self)@ == old(self)@.after_write_with_status(address, value, ro),
    {
        self.memory[address as usize] = MemoryCell { value: value, readonly: ro };
        assert(self@ =~= old(self)@.after_write_with_status(address, value, ro));
    }

    /// Stores `value` at `address` unless the cell is write-protected; a
    /// store to the display register also emits a character.
    pub fn write(&mut self, address: u16, value: u8)
        ensures
            final(self)@ == old(self)@.after_write(address, value),
    {
        if !self.memory[address as usize].readonly {
            self.memory[address as usize].value = value;
        }
        if address == DISPLAY_DATA || address == DISPLAY_DATA_MIRROR {
            let low = value & 0x7F;
            assert(low == value % 128) by (bit_vector)
                requires
                    low == value & 0x7F,
            ;
            self.apple_output_char_waiting = true;
            self.apple_output_char = if low == 13 {
                10
            } else {
                low
            };
        }
        assert(self@ =~= old(self)@.after_write(address, value));
    }
}

} // verus!
