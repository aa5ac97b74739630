//! Text reports of the processor for a driver to show: the one-line status
//! and lines of a memory dump.

use crate::alu::{high_byte, low_byte, Flags};
use crate::cpu6502::Cpu6502;
use crate::machine::CpuState;
use crate::memory::{offset_address, MemState};
use vstd::prelude::*;
use vstd::string::*;

verus! {

/// Number of bytes shown on one line of a memory dump.
pub const DUMP_WIDTH: usize = 8;

/// The hexadecimal digit for a number below sixteen, in upper case.
pub open spec fn hex_char(n: int) -> char {
    "0123456789ABCDEF"@[n]
}

/// A byte as two hexadecimal digits.
pub open spec fn hex_byte_text(value: u8) -> Seq<char> {
    seq![hex_char(value as int / 16), hex_char(value as int % 16)]
}

/// A word as four hexadecimal digits.
pub open spec fn hex_word_text(w: u16) -> Seq<char> {
    seq![
        hex_char(w as int / 4096),
        hex_char((w as int / 256) % 16),
        hex_char((w as int / 16) % 16),
        hex_char(w as int % 16),
    ]
}

/// A number in decimal, with leading zeros up to four digits.
pub open spec fn decimal_text(n: u16) -> Seq<char> {
    let low = seq![
        hex_char((n as int / 1000) % 10),
        hex_char((n as int / 100) % 10),
        hex_char((n as int / 10) % 10),
        hex_char(n as int % 10),
    ];
    if n >= 10000 {
        seq![hex_char(n as int / 10000)] + low
    } else {
        low
    }
}

/// The flags as letters, upper case when set: negative, overflow, an
/// underscore for the unused bit, break, decimal, interrupt, zero, carry.
pub open spec fn flags_text(f: Flags) -> Seq<char> {
    seq![
        if f.negative {
            'N'
        } else {
            'n'
        },
        if f.overflow {
            'V'
        } else {
            'v'
        },
        '_',
        if f.brk {
            'B'
        } else {
            'b'
        },
        if f.decimal {
            'D'
        } else {
            'd'
        },
        if f.interrupt {
            'I'
        } else {
            'i'
        },
        if f.zero {
            'Z'
        } else {
            'z'
        },
        if f.carry {
            'C'
        } else {
            'c'
        },
    ]
}

/// The status line of a state: the report count, the byte at the program
/// counter, the registers, the bytes at 0x00A0 and 0xA0A0, and the flags.
pub open spec fn status_text(s: CpuState) -> Seq<char> {
    "\rCycle: "@ + decimal_text(s.cycle) + "  "@ + hex_word_text(s.mem.read_value(s.pc) as u16)
        + "  PC:"@ + hex_word_text(s.pc) + " A:"@ + hex_byte_text(s.a) + " X:"@ + hex_byte_text(
        s.x,
    ) + " Y:"@ + hex_byte_text(s.y) + " SP:"@ + hex_byte_text(s.sp) + " A0:"@ + hex_byte_text(
        s.mem.after_read(s.pc).read_value(0x00A0),
    ) + " A0A0:"@ + hex_byte_text(s.mem.after_read(s.pc).read_value(0xA0A0)) + "  "@ + flags_text(
        s.flags,
    )
}

/// The memory after `count` cells have been read in order from `address`
/// on, with 16-bit wraparound.
pub open spec fn after_dump(m: MemState, address: u16, count: nat) -> MemState
    decreases count,
{
    if count == 0 {
        m
    } else {
        after_dump(m, address, (count - 1) as nat).after_read(offset_address(address, count - 1))
    }
}

/// A line of a memory dump: the address as four hexadecimal digits and a
/// space, then each of `count` bytes from that address on as two digits and
/// a space. The bytes are what reading them in order returns.
pub open spec fn dump_text(m: MemState, address: u16, count: nat) -> Seq<char>
    decreases count,
{
    if count == 0 {
        hex_word_text(address) + " "@
    } else {
        dump_text(m, address, (count - 1) as nat) + hex_byte_text(
            after_dump(m, address, (count - 1) as nat).read_value(
                offset_address(address, count - 1),
            ),
        ) + " "@
    }
}

/// The digit for `n` as a string of one character.
fn hex_digit(n: u8) -> (s: &'static str)
    requires
        n < 16,
    ensures
        s@ == seq![hex_char(n as int)],
{
    let digits: &'static str = "0123456789ABCDEF";
    proof {
        reveal_strlit("0123456789ABCDEF");
    }
    let s = digits.substring_char(n as usize, n as usize + 1);
    assert(s@ =~= seq![hex_char(n as int)]);
    s
}

/// Appends a byte as two hexadecimal digits.
fn push_hex_byte(out: &mut String, value: u8)
    ensures
        final(out)@ == old(out)@ + hex_byte_text(value),
{
    out.append(hex_digit(value / 16));
    out.append(hex_digit(value % 16));
    assert(out@ =~= old(out)@ + hex_byte_text(value));
}

/// Appends a word as four hexadecimal digits.
fn push_hex_word(out: &mut String, w: u16)
    ensures
        final(out)@ == old(out)@ + hex_word_text(w),
{
    out.append(hex_digit((w / 4096) as u8));
    out.append(hex_digit(((w / 256) % 16) as u8));
    out.append(hex_digit(((w / 16) % 16) as u8));
    out.append(hex_digit((w % 16) as u8));
    assert(out@ =~= old(out)@ + hex_word_text(w));
}

/// Appends a number in decimal with at least four digits.
fn push_decimal(out: &mut String, n: u16)
    ensures
        final(out)@ == old(out)@ + decimal_text(n),
{
    if n >= 10000 {
        out.append(hex_digit((n / 10000) as u8));
    }
    out.append(hex_digit(((n / 1000) % 10) as u8));
    out.append(hex_digit(((n / 100) % 10) as u8));
    out.append(hex_digit(((n / 10) % 10) as u8));
    out.append(hex_digit((n % 10) as u8));
    assert(out@ =~= old(out)@ + decimal_text(n));
}

/// Appends the upper-case letter when the flag is set and the lower-case
/// letter otherwise.
fn push_flag(out: &mut String, set: bool, upper: &str, lower: &str)
    ensures
        final(out)@ == old(out)@ + if set {
            upper@
        } else {
            lower@
        },
{
    if set {
        out.append(upper);
    } else {
        out.append(lower);
    }
}

/// Appends the flags as letters.
fn push_flags(out: &mut String, f: Flags)
    ensures
        final(out)@ == old(out)@ + flags_text(f),
{
    proof {
        reveal_strlit("N");
        reveal_strlit("n");
        reveal_strlit("V");
        reveal_strlit("v");
        reveal_strlit("_");
        reveal_strlit("B");
        reveal_strlit("b");
        reveal_strlit("D");
        reveal_strlit("d");
        reveal_strlit("I");
        reveal_strlit("i");
        reveal_strlit("Z");
        reveal_strlit("z");
        reveal_strlit("C");
        reveal_strlit("c");
    }
    push_flag(out, f.negative, "N", "n");
    push_flag(out, f.overflow, "V", "v");
    out.append("_");
    push_flag(out, f.brk, "B", "b");
    push_flag(out, f.decimal, "D", "d");
    push_flag(out, f.interrupt, "I", "i");
    push_flag(out, f.zero, "Z", "z");
    push_flag(out, f.carry, "C", "c");
    assert(out@ =~= old(out)@ + flags_text(f));
}

impl Cpu6502 {
    /// The flags of the processor.
    pub fn flags(&self) -> (f: Flags)
        ensures
            f == self@.flags,
    {
        Flags {
            carry: self.carry_flag,
            zero: self.zero_flag,
            interrupt: self.interrupt_flag,
            decimal: self.decimal_flag,
            brk: self.break_flag,
            overflow: self.overflow_flag,
            negative: self.negative_flag,
        }
    }

    /// The status of the processor on one line, beginning with a carriage
    /// return so that successive reports overwrite each other. Taking a
    /// report reads the byte at the program counter, as a fetch would, and
    /// counts the report.
    pub fn string_cpu_status(&mut self) -> (s: String)
        ensures
            s@ == status_text(old(self)@),
            final(self)@ == (CpuState {
                cycle: old(self)@.cycle.wrapping_add(1),
                mem: old(self)@.mem.after_read(old(self)@.pc),
                ..old(self)@
            }),
    {
        let opcode: u8 = self.memory.read(self.pc);
        let at_a0: u8 = self.memory.read(0x00A0);
        let at_a0a0: u8 = self.memory.read(0xA0A0);
        let mut s = String::from_str("\rCycle: ");
        push_decimal(&mut s, self.cycle);
        s.append("  ");
        push_hex_word(&mut s, opcode as u16);
        s.append("  PC:");
        push_hex_word(&mut s, self.pc);
        s.append(" A:");
        push_hex_byte(&mut s, self.a);
        s.append(" X:");
        push_hex_byte(&mut s, self.x);
        s.append(" Y:");
        push_hex_byte(&mut s, self.y);
        s.append(" SP:");
        push_hex_byte(&mut s, self.sp);
        s.append(" A0:");
        push_hex_byte(&mut s, at_a0);
        s.append(" A0A0:");
        push_hex_byte(&mut s, at_a0a0);
        s.append("  ");
        push_flags(&mut s, self.flags());
        self.cycle = self.cycle.wrapping_add(1);
        s
    }

    /// One line of a memory dump: the address and the eight bytes from it
    /// on, in hexadecimal. The bytes are read as a program would read them,
    /// so a dump across the keyboard data register consumes the pending key.
    pub fn dump_line(&mut self, address: u16) -> (s: String)
        ensures
            s@ == dump_text(old(self)@.mem, address, DUMP_WIDTH as nat),
            final(self)@ == (CpuState {
                mem: after_dump(old(self)@.mem, address, DUMP_WIDTH as nat),
                ..old(self)@
            }),
    {
        let mut s = String::new();
        push_hex_word(&mut s, address);
        s.append(" ");
        assert(s@ =~= hex_word_text(address) + " "@);
        let ghost start = self.memory@;
        let mut target: u16 = address;
        let mut i: usize = 0;
        while i < 8
            invariant
                i <= 8,
                target == offset_address(address, i as int),
                self.memory@ == after_dump(start, address, i as nat),
                s@ == dump_text(start, address, i as nat),
                *self == (Cpu6502 { memory: self.memory, ..*old(self) }),
            decreases 8 - i,
        {
            let value: u8 = self.memory.read(target);
            push_hex_byte(&mut s, value);
            s.append(" ");
            target = target.wrapping_add(1);
            i = i + 1;
        }
        s
    }
}

} // verus!
