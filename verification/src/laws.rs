//! Laws of the machine: what holds of every state, proved from the
//! definitions of the instructions.

use crate::alu::{
    bcd_value, bit, high_byte, is_bcd, is_negative, lemma_add_binary_flags,
    lemma_add_decimal_correct, lemma_status_round_trip, lemma_sub_binary_flags,
    lemma_sub_decimal_correct, low_byte, signed, status_byte, word, Flags,
};
use crate::cpu6502::initial_state;
use crate::machine::{
    modified_carry, modified_value, stack_address, Condition, CpuState, ImpliedOp, Mode, ModifyOp,
    ReadOp,
};
use crate::memory::{is_display, MemState, MemoryCell, KEYBOARD_CONTROL, KEYBOARD_DATA};
use vstd::prelude::*;

verus! {

/// The stack pointer `k` pushes below `sp`, modulo 256.
pub open spec fn sp_down(sp: u8, k: int) -> u8 {
    ((sp - k) % 256) as u8
}

/// The stack pointer `k` pulls above `sp`, modulo 256.
pub open spec fn sp_up(sp: u8, k: int) -> u8 {
    ((sp + k) % 256) as u8
}

/// The stack cell that the stack pointer selects.
pub open spec fn stack_cell(m: MemState, sp: u8) -> MemoryCell {
    m.cells[stack_address(sp) as int]
}

/// No cell of the stack page is write-protected.
pub open spec fn stack_writable(m: MemState) -> bool {
    forall|a: int| 0x0100 <= a < 0x0200 ==> !(#[trigger] m.cells[a]).readonly
}

impl CpuState {
    /// The state after the bytes of `values` have been pushed, first to
    /// last.
    pub open spec fn push_all(self, values: Seq<u8>) -> CpuState
        decreases values.len(),
    {
        if values.len() == 0 {
            self
        } else {
            self.push_all(values.drop_last()).push(values.last())
        }
    }

    /// The bytes that `n` pulls return, first to last.
    pub open spec fn pulled_values(self, n: nat) -> Seq<u8>
        decreases n,
    {
        if n == 0 {
            Seq::empty()
        } else {
            seq![self.pull().0] + self.pull().1.pulled_values((n - 1) as nat)
        }
    }

    /// The state after `n` pulls.
    pub open spec fn after_pulls(self, n: nat) -> CpuState
        decreases n,
    {
        if n == 0 {
            self
        } else {
            self.pull().1.after_pulls((n - 1) as nat)
        }
    }
}

/// A store to a write-protected cell is a silent no-op: no cell changes,
/// the keyboard is untouched, and every read afterwards, of that address or
/// any other, returns what it returned before. Away from the display
/// register the memory is unchanged altogether.
pub proof fn law_readonly_write_is_no_op(m: MemState, address: u16, value: u8)
    requires
        m.wf(),
        m.is_readonly(address),
    ensures
        m.after_write(address, value).cells == m.cells,
        m.after_write(address, value).key_ready == m.key_ready,
        m.after_write(address, value).key_value == m.key_value,
        m.after_write(address, value).read_value(address) == m.read_value(address),
        forall|a: u16| m.after_write(address, value).read_value(a) == m.read_value(a),
        !is_display(address) ==> m.after_write(address, value) == m,
{
}

/// A store to a writable cell that is no device register is read back, and
/// no other cell changes.
pub proof fn law_write_then_read(m: MemState, address: u16, value: u8)
    requires
        m.wf(),
        !m.is_readonly(address),
        !is_display(address),
        address != KEYBOARD_DATA,
        address != KEYBOARD_CONTROL,
    ensures
        m.after_write(address, value).read_value(address) == value,
        m.after_write(address, value).wf(),
        forall|a: u16|
            a != address ==> m.after_write(address, value).read_value(a) == m.read_value(a),
        forall|a: u16| m.after_write(address, value).is_readonly(a) == m.is_readonly(a),
{
}

/// A read changes no cell, no protection and nothing of the display; a
/// second read of the same address returns the same byte as the first; and
/// after a read of the keyboard data register no key is pending. A read of
/// any other address changes nothing at all.
pub proof fn law_read_keeps_cells(m: MemState, address: u16)
    ensures
        m.after_read(address).cells == m.cells,
        m.after_read(address).output_waiting == m.output_waiting,
        m.after_read(address).output_char == m.output_char,
        address != KEYBOARD_DATA ==> m.after_read(address) == m,
        m.after_read(address).read_value(address) == m.read_value(address),
        !m.after_read(KEYBOARD_DATA).key_ready,
{
}

/// In binary mode, add with carry leaves the low byte of `A + operand +
/// carry`; the carry is set exactly when that sum exceeds 255; overflow is
/// set by the sign rule, which holds exactly when the signed sum leaves the
/// range of a signed byte; zero and negative follow the result.
pub proof fn law_adc_binary(s: CpuState, operand: u8)
    requires
        !s.flags.decimal,
    ensures
        s.apply_read(ReadOp::Adc, operand) == s.added(operand),
        s.added(operand).a == (s.a + operand + bit(s.flags.carry)) % 256,
        s.added(operand).flags.carry == (s.a + operand + bit(s.flags.carry) > 255),
        s.added(operand).flags.overflow == (is_negative(s.a) == is_negative(operand)
            && is_negative(s.added(operand).a) != is_negative(s.a)),
        s.added(operand).flags.overflow == !(-128 <= signed(s.a) + signed(operand) + bit(
            s.flags.carry,
        ) <= 127),
        s.added(operand).flags.zero == (s.added(operand).a == 0),
        s.added(operand).flags.negative == (s.added(operand).a >= 128),
        s.added(operand).flags.decimal == s.flags.decimal,
        s.added(operand).flags.interrupt == s.flags.interrupt,
        s.added(operand).flags.brk == s.flags.brk,
        s.added(operand) == (CpuState {
            a: s.added(operand).a,
            flags: s.added(operand).flags,
            ..s
        }),
{
    lemma_add_binary_flags(s.a, operand, s.flags.carry);
}

/// In binary mode, subtract with borrow leaves the low byte of `A - operand
/// - (1 - carry)`; the carry is set exactly when no borrow occurred;
/// overflow is set by the sign rule, which holds exactly when the signed
/// difference leaves the range of a signed byte; zero and negative follow
/// the result.
pub proof fn law_sbc_binary(s: CpuState, operand: u8)
    requires
        !s.flags.decimal,
    ensures
        s.apply_read(ReadOp::Sbc, operand) == s.subtracted(operand),
        s.subtracted(operand).a == (s.a - operand - (1 - bit(s.flags.carry))) % 256,
        s.subtracted(operand).flags.carry == (s.a - operand - (1 - bit(s.flags.carry)) >= 0),
        s.subtracted(operand).flags.overflow == (is_negative(s.a) != is_negative(operand)
            && is_negative(s.subtracted(operand).a) != is_negative(s.a)),
        s.subtracted(operand).flags.overflow == !(-128 <= signed(s.a) - signed(operand) - (1
            - bit(s.flags.carry)) <= 127),
        s.subtracted(operand).flags.zero == (s.subtracted(operand).a == 0),
        s.subtracted(operand).flags.negative == (s.subtracted(operand).a >= 128),
        s.subtracted(operand).flags.decimal == s.flags.decimal,
        s.subtracted(operand).flags.interrupt == s.flags.interrupt,
        s.subtracted(operand).flags.brk == s.flags.brk,
        s.subtracted(operand) == (CpuState {
            a: s.subtracted(operand).a,
            flags: s.subtracted(operand).flags,
            ..s
        }),
{
    lemma_sub_binary_flags(s.a, operand, s.flags.carry);
}

/// In decimal mode, add with carry on packed decimal operands is decimal
/// addition: the accumulator is packed decimal again and, with the carry
/// counted as one hundred, stands for the sum of the two numbers and the
/// carry in. Zero and negative follow the result.
pub proof fn law_adc_decimal(s: CpuState, operand: u8)
    requires
        s.flags.decimal,
        is_bcd(s.a),
        is_bcd(operand),
    ensures
        is_bcd(s.added(operand).a),
        bcd_value(s.added(operand).a) + 100 * bit(s.added(operand).flags.carry) == bcd_value(s.a)
            + bcd_value(operand) + bit(s.flags.carry),
        s.added(operand).flags.zero == (s.added(operand).a == 0),
        s.added(operand).flags.negative == (s.added(operand).a >= 128),
        s.added(operand).flags.decimal,
        s.added(operand) == (CpuState {
            a: s.added(operand).a,
            flags: s.added(operand).flags,
            ..s
        }),
{
    lemma_add_decimal_correct(s.a, operand, s.flags.carry);
}

/// In decimal mode, subtract with borrow on packed decimal operands is
/// decimal subtraction: the accumulator is packed decimal again and, with a
/// borrow counted as one hundred, stands for the difference of the two
/// numbers less the borrow in. The carry is clear exactly when the
/// subtraction borrowed.
pub proof fn law_sbc_decimal(s: CpuState, operand: u8)
    requires
        s.flags.decimal,
        is_bcd(s.a),
        is_bcd(operand),
    ensures
        is_bcd(s.subtracted(operand).a),
        bcd_value(s.subtracted(operand).a) - 100 * (1 - bit(s.subtracted(operand).flags.carry))
            == bcd_value(s.a) - bcd_value(operand) - (1 - bit(s.flags.carry)),
        s.subtracted(operand).flags.carry == (bcd_value(s.a) >= bcd_value(operand) + (1 - bit(
            s.flags.carry,
        ))),
        s.subtracted(operand).flags.zero == (s.subtracted(operand).a == 0),
        s.subtracted(operand).flags.negative == (s.subtracted(operand).a >= 128),
        s.subtracted(operand).flags.decimal,
        s.subtracted(operand) == (CpuState {
            a: s.subtracted(operand).a,
            flags: s.subtracted(operand).flags,
            ..s
        }),
{
    lemma_sub_decimal_correct(s.a, operand, s.flags.carry);
}

/// A comparison sets the carry exactly when the register is at least the
/// operand, zero exactly when they are equal, and negative from bit 7 of
/// their difference modulo 256. It keeps every register and every other
/// flag.
pub proof fn law_compare(s: CpuState, register: u8, operand: u8)
    ensures
        s.compared(register, operand).flags.carry == (register >= operand),
        s.compared(register, operand).flags.zero == (register == operand),
        s.compared(register, operand).flags.negative == ((register - operand) % 256 >= 128),
        s.compared(register, operand).flags.overflow == s.flags.overflow,
        s.compared(register, operand).flags.decimal == s.flags.decimal,
        s.compared(register, operand).flags.interrupt == s.flags.interrupt,
        s.compared(register, operand).flags.brk == s.flags.brk,
        s.compared(register, operand) == (CpuState {
            flags: s.compared(register, operand).flags,
            ..s
        }),
{
}

/// The three compare instructions compare the accumulator, the X register
/// and the Y register with their operand: carry exactly when the register
/// is at least the operand, zero exactly when they are equal, negative from
/// bit 7 of their difference modulo 256; no register changes.
pub proof fn law_compare_instructions(s: CpuState, operand: u8)
    ensures
        s.apply_read(ReadOp::CompareA, operand) == s.compared(s.a, operand),
        s.apply_read(ReadOp::CompareX, operand) == s.compared(s.x, operand),
        s.apply_read(ReadOp::CompareY, operand) == s.compared(s.y, operand),
        s.apply_read(ReadOp::CompareA, operand).flags.carry == (s.a >= operand),
        s.apply_read(ReadOp::CompareA, operand).flags.zero == (s.a == operand),
        s.apply_read(ReadOp::CompareA, operand).flags.negative == ((s.a - operand) % 256 >= 128),
        s.apply_read(ReadOp::CompareX, operand).flags.carry == (s.x >= operand),
        s.apply_read(ReadOp::CompareX, operand).flags.zero == (s.x == operand),
        s.apply_read(ReadOp::CompareX, operand).flags.negative == ((s.x - operand) % 256 >= 128),
        s.apply_read(ReadOp::CompareY, operand).flags.carry == (s.y >= operand),
        s.apply_read(ReadOp::CompareY, operand).flags.zero == (s.y == operand),
        s.apply_read(ReadOp::CompareY, operand).flags.negative == ((s.y - operand) % 256 >= 128),
{
}

/// A shift or rotate moves every bit one place and puts the bit that leaves,
/// taken from the byte as it was, into the carry; a rotate fills the
/// vacated bit with the carry as it was, a shift with zero.
pub proof fn law_shifts_and_rotates(value: u8, carry: bool)
    ensures
        modified_value(ModifyOp::Asl, value, carry) == (2 * value) % 256,
        modified_value(ModifyOp::Rol, value, carry) == (2 * value) % 256 + bit(carry),
        modified_value(ModifyOp::Lsr, value, carry) == value / 2,
        modified_value(ModifyOp::Ror, value, carry) == value / 2 + 128 * bit(carry),
        modified_carry(ModifyOp::Asl, value, carry) == (value >= 128),
        modified_carry(ModifyOp::Rol, value, carry) == (value >= 128),
        modified_carry(ModifyOp::Lsr, value, carry) == (value % 2 == 1),
        modified_carry(ModifyOp::Ror, value, carry) == (value % 2 == 1),
{
}

/// An increment or decrement wraps modulo 256 and touches no flag but zero
/// and negative, in memory as in a register.
pub proof fn law_increments_and_decrements(s: CpuState, mode: Mode, value: u8)
    ensures
        modified_value(ModifyOp::Inc, value, s.flags.carry) == (value + 1) % 256,
        modified_value(ModifyOp::Dec, value, s.flags.carry) == (value - 1) % 256,
        s.modify_instr(ModifyOp::Inc, mode).flags.carry == s.flags.carry,
        s.modify_instr(ModifyOp::Inc, mode).flags.overflow == s.flags.overflow,
        s.modify_instr(ModifyOp::Dec, mode).flags.carry == s.flags.carry,
        s.modify_instr(ModifyOp::Dec, mode).flags.overflow == s.flags.overflow,
        s.implied_instr(ImpliedOp::Inx).x == (s.x + 1) % 256,
        s.implied_instr(ImpliedOp::Dex).x == (s.x - 1) % 256,
        s.implied_instr(ImpliedOp::Iny).y == (s.y + 1) % 256,
        s.implied_instr(ImpliedOp::Dey).y == (s.y - 1) % 256,
        s.implied_instr(ImpliedOp::Inx).flags.carry == s.flags.carry,
        s.implied_instr(ImpliedOp::Inx).flags.overflow == s.flags.overflow,
        s.implied_instr(ImpliedOp::Dey).flags.carry == s.flags.carry,
        s.implied_instr(ImpliedOp::Dey).flags.overflow == s.flags.overflow,
{
}

/// A load or a logical operation sets zero and negative from its result and
/// touches neither carry nor overflow.
pub proof fn law_loads_and_logic(s: CpuState, operand: u8)
    ensures
        s.apply_read(ReadOp::Lda, operand).a == operand,
        s.apply_read(ReadOp::Ldx, operand).x == operand,
        s.apply_read(ReadOp::Ldy, operand).y == operand,
        s.apply_read(ReadOp::Lda, operand).flags == (Flags {
            zero: operand == 0,
            negative: operand >= 128,
            ..s.flags
        }),
        s.apply_read(ReadOp::Ora, operand).flags == (Flags {
            zero: s.a | operand == 0,
            negative: s.a | operand >= 128,
            ..s.flags
        }),
        s.apply_read(ReadOp::And, operand).flags == (Flags {
            zero: s.a & operand == 0,
            negative: s.a & operand >= 128,
            ..s.flags
        }),
        s.apply_read(ReadOp::Eor, operand).flags == (Flags {
            zero: s.a ^ operand == 0,
            negative: s.a ^ operand >= 128,
            ..s.flags
        }),
{
}

/// A bit test sets zero exactly when accumulator and operand share no bit,
/// and takes negative and overflow from bits 7 and 6 of the operand, not of
/// the accumulator. No register and no other flag changes.
pub proof fn law_bit_test(s: CpuState, operand: u8)
    ensures
        s.apply_read(ReadOp::Bit, operand).flags == (Flags {
            zero: s.a & operand == 0,
            negative: operand >= 128,
            overflow: (operand / 64) % 2 == 1,
            ..s.flags
        }),
        s.apply_read(ReadOp::Bit, operand) == (CpuState {
            flags: s.apply_read(ReadOp::Bit, operand).flags,
            ..s
        }),
{
}

/// A taken branch lands at the address after the branch instruction plus
/// the offset read as a signed byte, modulo 65536; an untaken branch lands
/// at the address after the instruction. No register or flag changes.
pub proof fn law_branch(s: CpuState, condition: Condition)
    ensures
        s.holds(condition) ==> s.branch_instr(condition).pc == (s.pc + 1 + signed(
            s.mem.read_value(s.pc),
        )) % 65536,
        !s.holds(condition) ==> s.branch_instr(condition).pc == (s.pc + 1) % 65536,
        s.branch_instr(condition) == (CpuState {
            pc: s.branch_instr(condition).pc,
            mem: s.mem.after_read(s.pc),
            ..s
        }),
{
}

/// Zero-page indexed addressing stays in page zero: the address is the
/// operand plus the index register modulo 256.
pub proof fn law_zero_page_indexed_wraps(s: CpuState)
    ensures
        s.resolve(Mode::ZeroPageX).0 == (s.mem.read_value(s.pc) + s.x) % 256,
        s.resolve(Mode::ZeroPageY).0 == (s.mem.read_value(s.pc) + s.y) % 256,
        s.resolve(Mode::ZeroPageX).0 < 256,
        s.resolve(Mode::ZeroPageY).0 < 256,
        s.resolve(Mode::ZeroPage).0 == s.mem.read_value(s.pc),
{
}

/// A pull after a push returns the pushed byte and restores the stack
/// pointer, wherever the stack pointer stands.
pub proof fn law_push_then_pull(s: CpuState, value: u8)
    requires
        s.wf(),
        !s.mem.is_readonly(stack_address(s.sp)),
    ensures
        s.push(value).pull().0 == value,
        s.push(value).pull().1.sp == s.sp,
        s.push(value).pull().1 == (CpuState { mem: s.push(value).mem, ..s }),
{
}

/// The remainder modulo 256 of a number within one period of a byte.
proof fn lemma_mod_256(v: int)
    requires
        -256 <= v < 512,
    ensures
        v % 256 == if v < 0 {
            v + 256
        } else if v < 256 {
            v
        } else {
            v - 256
        },
{
}

/// What a run of pushes leaves: the stack pointer has gone down by their
/// number modulo 256, the byte pushed `i`-th lies `i` cells below the first,
/// and nothing but the stack pointer and the memory has changed.
pub proof fn lemma_push_all(s: CpuState, values: Seq<u8>)
    requires
        s.wf(),
        stack_writable(s.mem),
        values.len() <= 256,
    ensures
        s.push_all(values).sp == sp_down(s.sp, values.len() as int),
        s.push_all(values).wf(),
        stack_writable(s.push_all(values).mem),
        forall|i: int|
            0 <= i < values.len() ==> (#[trigger] stack_cell(
                s.push_all(values).mem,
                sp_down(s.sp, i),
            )).value == values[i],
        s.push_all(values) == (CpuState {
            sp: s.push_all(values).sp,
            mem: s.push_all(values).mem,
            ..s
        }),
    decreases values.len(),
{
    if values.len() > 0 {
        let front = values.drop_last();
        let t = s.push_all(front);
        lemma_push_all(s, front);
        let n = values.len() as int;
        let top = stack_address(t.sp);
        lemma_mod_256(s.sp - (n - 1));
        lemma_mod_256(s.sp - n);
        assert(t.sp == sp_down(s.sp, n - 1));
        assert(!t.mem.cells[top as int].readonly);
        assert(s.push_all(values) == t.push(values.last()));
        assert(t.sp.wrapping_sub(1) == sp_down(s.sp, n));
        assert forall|i: int| 0 <= i < n implies (#[trigger] stack_cell(
            s.push_all(values).mem,
            sp_down(s.sp, i),
        )).value == values[i] by {
            if i < n - 1 {
                lemma_mod_256(s.sp - i);
                assert(sp_down(s.sp, i) != sp_down(s.sp, n - 1));
                assert(stack_cell(t.mem, sp_down(s.sp, i)).value == front[i]);
            }
        }
        assert forall|a: int| 0x0100 <= a < 0x0200 implies !(#[trigger] s.push_all(
            values,
        ).mem.cells[a]).readonly by {
            assert(!t.mem.cells[a].readonly);
        }
    }
}

/// What a run of pulls returns: the `j`-th byte is the one `j + 1` cells
/// above the stack pointer, modulo 256; and nothing but the stack pointer
/// changes.
pub proof fn lemma_pulls(t: CpuState, n: nat)
    requires
        t.wf(),
        n <= 256,
    ensures
        t.pulled_values(n).len() == n,
        forall|j: int|
            0 <= j < n ==> (#[trigger] t.pulled_values(n)[j]) == stack_cell(
                t.mem,
                sp_up(t.sp, j + 1),
            ).value,
        t.after_pulls(n) == (CpuState { sp: sp_up(t.sp, n as int), ..t }),
    decreases n,
{
    if n > 0 {
        let t1 = t.pull().1;
        lemma_mod_256(t.sp + 1);
        assert(t1 == (CpuState { sp: sp_up(t.sp, 1), ..t }));
        lemma_pulls(t1, (n - 1) as nat);
        let rest = t1.pulled_values((n - 1) as nat);
        assert forall|j: int| 0 <= j < n implies (#[trigger] t.pulled_values(n)[j]) == stack_cell(
            t.mem,
            sp_up(t.sp, j + 1),
        ).value by {
            if j > 0 {
                assert(t.pulled_values(n)[j] == rest[j - 1]);
                lemma_mod_256(t1.sp + j);
                lemma_mod_256(t.sp + j + 1);
                assert(sp_up(t1.sp, j) == sp_up(t.sp, j + 1));
            }
        }
        lemma_mod_256(t1.sp + (n - 1));
        lemma_mod_256(t.sp + n);
        assert(sp_up(t1.sp, n - 1) == sp_up(t.sp, n as int));
    }
}

/// Going down by `n` and up again by `j + 1` is going down by `n - 1 - j`.
proof fn lemma_down_then_up(sp: u8, n: int, j: int)
    requires
        0 <= j < n <= 256,
    ensures
        sp_up(sp_down(sp, n), j + 1) == sp_down(sp, n - 1 - j),
        sp_up(sp_down(sp, n), n) == sp,
{
    lemma_mod_256(sp - n);
    let low = sp_down(sp, n);
    lemma_mod_256(low + j + 1);
    lemma_mod_256(sp - (n - 1 - j));
    lemma_mod_256(low + n);
}

/// The stack is last in, first out, across the wraparound of the stack
/// pointer: after up to 256 pushes onto a writable stack page, as many pulls
/// return the bytes in reverse order and restore the stack pointer; no
/// register, flag or program counter changes.
pub proof fn law_stack_is_lifo(s: CpuState, values: Seq<u8>)
    requires
        s.wf(),
        stack_writable(s.mem),
        values.len() <= 256,
    ensures
        s.push_all(values).pulled_values(values.len()) == values.reverse(),
        s.push_all(values).after_pulls(values.len()).sp == s.sp,
        s.push_all(values).after_pulls(values.len()) == (CpuState {
            mem: s.push_all(values).mem,
            ..s
        }),
{
    let n = values.len();
    let t = s.push_all(values);
    lemma_push_all(s, values);
    lemma_pulls(t, n);
    let out = t.pulled_values(n);
    assert forall|j: int| 0 <= j < n implies out[j] == values.reverse()[j] by {
        lemma_down_then_up(s.sp, n as int, j);
        assert(stack_cell(t.mem, sp_down(s.sp, n - 1 - j)).value == values[n - 1 - j]);
    }
    assert(out =~= values.reverse());
    if n > 0 {
        lemma_down_then_up(s.sp, n as int, 0);
    }
}

/// A return from subroutine that finds the stack as the jump to subroutine
/// left it resumes at the instruction after the jump: two bytes past the
/// first operand byte, where the jump was entered. The stack pointer is
/// back where it was.
pub proof fn law_jsr_then_rts(s: CpuState, t: CpuState)
    requires
        s.wf(),
        t.wf(),
        !s.mem.is_readonly(stack_address(s.sp)),
        !s.mem.is_readonly(stack_address(s.sp.wrapping_sub(1))),
        t.sp == s.jsr_instr().sp,
        stack_cell(t.mem, s.sp) == stack_cell(s.jsr_instr().mem, s.sp),
        stack_cell(t.mem, s.sp.wrapping_sub(1)) == stack_cell(
            s.jsr_instr().mem,
            s.sp.wrapping_sub(1),
        ),
    ensures
        s.jsr_instr().sp == s.sp.wrapping_sub(1).wrapping_sub(1),
        s.jsr_instr().pc == s.load_word(s.pc).0,
        t.rts_instr().pc == s.pc.wrapping_add(2),
        t.rts_instr().sp == s.sp,
        s.jsr_instr().rts_instr().pc == s.pc.wrapping_add(2),
        s.jsr_instr().rts_instr().sp == s.sp,
{
    let back = s.pc.wrapping_add(1);
    let j = s.jsr_instr();
    assert(stack_cell(j.mem, s.sp).value == high_byte(back));
    assert(stack_cell(j.mem, s.sp.wrapping_sub(1)).value == low_byte(back));
    assert(word(low_byte(back), high_byte(back)) == back);
}

/// Stepping through a jump to subroutine and then, with nothing between
/// them, a return from subroutine lands three bytes past the opcode of the
/// jump: at the instruction that follows it.
pub proof fn law_call_and_return(s: CpuState)
    requires
        s.wf(),
        s.mem.read_value(s.pc) == 0x20,
        !s.mem.is_readonly(stack_address(s.sp)),
        !s.mem.is_readonly(stack_address(s.sp.wrapping_sub(1))),
        s.step().mem.read_value(s.step().pc) == 0x60,
    ensures
        s.step().step().pc == s.pc.wrapping_add(3),
        s.step().step().sp == s.sp,
{
    let entered = s.fetched().1;
    assert(s.step() == entered.jsr_instr());
    let called = s.step();
    let returning = called.fetched().1;
    assert(called.step() == returning.rts_instr());
    law_jsr_then_rts(entered, returning);
}

/// A return from interrupt that follows a break restores the program
/// counter to the address of the break and the flags to what they were,
/// but for the break flag, which the break has set. The stack pointer and
/// the registers are as before.
pub proof fn law_brk_then_rti(s: CpuState)
    requires
        s.wf(),
        !s.mem.is_readonly(stack_address(s.sp)),
        !s.mem.is_readonly(stack_address(s.sp.wrapping_sub(1))),
        !s.mem.is_readonly(stack_address(s.sp.wrapping_sub(1).wrapping_sub(1))),
    ensures
        s.brk_instr().pc == s.pc.wrapping_sub(1),
        s.brk_instr().rti_instr().pc == s.pc.wrapping_sub(1),
        s.brk_instr().rti_instr().flags == (Flags { brk: true, ..s.flags }),
        s.brk_instr().rti_instr().sp == s.sp,
        s.brk_instr().rti_instr() == (CpuState {
            pc: s.pc.wrapping_sub(1),
            flags: Flags { brk: true, ..s.flags },
            mem: s.brk_instr().mem,
            ..s
        }),
{
    let at = s.pc.wrapping_sub(1);
    let flags = Flags { brk: true, ..s.flags };
    lemma_status_round_trip(flags);
    let b = s.brk_instr();
    let sp1 = s.sp.wrapping_sub(1);
    let sp2 = sp1.wrapping_sub(1);
    assert(b.sp == sp2.wrapping_sub(1));
    assert(stack_cell(b.mem, s.sp).value == high_byte(at));
    assert(stack_cell(b.mem, sp1).value == low_byte(at));
    assert(stack_cell(b.mem, sp2).value == status_byte(flags));
    assert(word(low_byte(at), high_byte(at)) == at);
    let restored = b.pull_status();
    assert(restored.flags == flags);
    assert(restored.sp == sp2);
}

/// Stepping through a break leaves the program counter on the break, and a
/// return from interrupt then restores program counter and flags as they
/// were before the step, but for the break flag.
pub proof fn law_break_and_return(s: CpuState)
    requires
        s.wf(),
        s.mem.read_value(s.pc) == 0x00,
        !s.mem.is_readonly(stack_address(s.sp)),
        !s.mem.is_readonly(stack_address(s.sp.wrapping_sub(1))),
        !s.mem.is_readonly(stack_address(s.sp.wrapping_sub(1).wrapping_sub(1))),
    ensures
        s.step().pc == s.pc,
        s.step().rti_instr().pc == s.pc,
        s.step().rti_instr().flags == (Flags { brk: true, ..s.flags }),
        s.step().rti_instr().sp == s.sp,
{
    let entered = s.fetched().1;
    assert(s.step() == entered.brk_instr());
    law_brk_then_rti(entered);
}

/// A reset of a reset state changes nothing: resetting is idempotent.
pub proof fn law_reset_idempotent(mem: MemState, pc: u16)
    ensures
        initial_state(initial_state(mem, pc).mem, pc) == initial_state(mem, pc),
{
}

/// A no-operation changes nothing, so a step over one only moves the
/// program counter by one and records the instruction in the trace. (The
/// fetch itself is a read, which matters only where the program counter
/// stands on the keyboard data register.)
pub proof fn law_nop_step(s: CpuState)
    requires
        s.wf(),
        s.mem.read_value(s.pc) == 0xEA,
    ensures
        s.step() == (CpuState {
            pc: s.pc.wrapping_add(1),
            trace: s.trace.drop_first().push(s.pc),
            mem: s.mem.after_read(s.pc),
            ..s
        }),
        s.pc != KEYBOARD_DATA ==> s.step() == (CpuState {
            pc: s.pc.wrapping_add(1),
            trace: s.trace.drop_first().push(s.pc),
            ..s
        }),
{
}

/// A step over an opcode that stands for no instruction moves the program
/// counter past the opcode, records its address in the trace, and leaves
/// registers, flags and cells as they were.
pub proof fn law_invalid_opcode_step(s: CpuState)
    requires
        s.wf(),
        !s.at_valid_opcode(),
    ensures
        s.step() == (CpuState {
            pc: s.pc.wrapping_add(1),
            trace: s.trace.drop_first().push(s.pc),
            mem: s.mem.after_read(s.pc),
            ..s
        }),
        s.step().trace.last() == s.pc,
{
}

} // verus!
