//! Arithmetic of the 6502 stated over the integers: status byte layout,
//! add and subtract with carry in binary and decimal mode, comparison,
//! shifts and rotates, and the facts that tie the bit-level operations of the
//! processor to these definitions.
//!
//! Decimal mode is defined digit by digit with carry between the digits,
//! and proved to be decimal arithmetic on packed decimal operands
//! (`lemma_add_decimal_correct`, `lemma_sub_decimal_correct`). In decimal
//! mode the carry is the decimal carry, and overflow, zero and negative are
//! read off the decimal result.

use vstd::prelude::*;

verus! {

/// Bit 7 of a byte, the sign of its two's complement reading.
pub open spec fn is_negative(value: u8) -> bool {
    value >= 128
}

/// The two's complement reading of a byte.
pub open spec fn signed(value: u8) -> int {
    if value >= 128 {
        value - 256
    } else {
        value as int
    }
}

/// The 16-bit word with the given low and high byte.
pub open spec fn word(low: u8, high: u8) -> u16 {
    (high * 256 + low) as u16
}

/// The high byte of a word.
pub open spec fn high_byte(w: u16) -> u8 {
    (w / 256) as u8
}

/// The low byte of a word.
pub open spec fn low_byte(w: u16) -> u8 {
    (w % 256) as u8
}

/// One if the flag is set, zero otherwise.
pub open spec fn bit(flag: bool) -> int {
    if flag {
        1
    } else {
        0
    }
}

/// The seven status flags of the processor.
pub struct Flags {
    pub carry: bool,
    pub zero: bool,
    pub interrupt: bool,
    pub decimal: bool,
    pub brk: bool,
    pub overflow: bool,
    pub negative: bool,
}

/// The status byte of the flags: carry in bit 0, zero in bit 1, interrupt
/// disable in bit 2, decimal in bit 3, break in bit 4, overflow in bit 6 and
/// negative in bit 7. Bit 5 is not a flag and always reads as one.
pub open spec fn status_byte(f: Flags) -> u8 {
    (bit(f.carry) + 2 * bit(f.zero) + 4 * bit(f.interrupt) + 8 * bit(f.decimal) + 16 * bit(f.brk)
        + 32 + 64 * bit(f.overflow) + 128 * bit(f.negative)) as u8
}

/// The flags held by a status byte; bit 5 is ignored.
pub open spec fn flags_of(byte: u8) -> Flags {
    Flags {
        carry: byte % 2 == 1,
        zero: (byte / 2) % 2 == 1,
        interrupt: (byte / 4) % 2 == 1,
        decimal: (byte / 8) % 2 == 1,
        brk: (byte / 16) % 2 == 1,
        overflow: (byte / 64) % 2 == 1,
        negative: byte >= 128,
    }
}

/// Value and flags produced by an addition or subtraction.
pub struct AluOut {
    pub value: u8,
    pub carry: bool,
    pub overflow: bool,
}

/// The sign rule for overflow of an addition: both operands have one sign
/// and the result has the other.
pub open spec fn add_overflows(a: u8, m: u8, result: u8) -> bool {
    is_negative(a) == is_negative(m) && is_negative(result) != is_negative(a)
}

/// The sign rule for overflow of a subtraction: the operands differ in sign
/// and the result has the sign of the subtrahend.
pub open spec fn sub_overflows(a: u8, m: u8, result: u8) -> bool {
    is_negative(a) != is_negative(m) && is_negative(result) != is_negative(a)
}

/// Binary add with carry: the nine-bit sum `a + m + carry`, split into the
/// stored byte and the carry out.
pub open spec fn add_binary(a: u8, m: u8, carry: bool) -> AluOut {
    let sum = a + m + bit(carry);
    let value = (sum % 256) as u8;
    AluOut { value: value, carry: sum > 255, overflow: add_overflows(a, m, value) }
}

/// Binary subtract with borrow: `a - m - (1 - carry)`, with the carry out
/// set exactly when no borrow was needed.
pub open spec fn sub_binary(a: u8, m: u8, carry: bool) -> AluOut {
    let diff = a - m - (1 - bit(carry));
    let value = (diff % 256) as u8;
    AluOut { value: value, carry: diff >= 0, overflow: sub_overflows(a, m, value) }
}

/// Whether both nibbles of the byte are decimal digits.
pub open spec fn is_bcd(value: u8) -> bool {
    value % 16 <= 9 && value / 16 <= 9
}

/// The number from 0 to 99 that a packed decimal byte stands for.
pub open spec fn bcd_value(value: u8) -> int {
    10 * (value / 16) + value % 16
}

/// One decimal digit of a sum: the digit left in the nibble, given the sum
/// of the two nibbles and the carry into them.
pub open spec fn add_digit(sum: int) -> int {
    if sum > 9 {
        (sum - 10) % 16
    } else {
        sum
    }
}

/// One decimal digit of a difference: the digit left in the nibble, given
/// the difference of the two nibbles less the borrow into them.
pub open spec fn sub_digit(diff: int) -> int {
    if diff < 0 {
        (diff + 10) % 16
    } else {
        diff
    }
}

/// Decimal add with carry, digit by digit: the low digits are added with
/// the carry in, a sum above nine carries into the high digits, and a high
/// sum above nine sets the carry out.
pub open spec fn add_decimal(a: u8, m: u8, carry: bool) -> AluOut {
    let low = a % 16 + m % 16 + bit(carry);
    let high = a / 16 + m / 16 + bit(low > 9);
    let value = (16 * add_digit(high) + add_digit(low)) as u8;
    AluOut { value: value, carry: high > 9, overflow: add_overflows(a, m, value) }
}

/// Decimal subtract with borrow, digit by digit: a low difference below
/// zero borrows from the high digits, and the carry out is set exactly when
/// the high digits needed no borrow.
pub open spec fn sub_decimal(a: u8, m: u8, carry: bool) -> AluOut {
    let low = a % 16 - m % 16 - (1 - bit(carry));
    let high = a / 16 - m / 16 - bit(low < 0);
    let value = (16 * sub_digit(high) + sub_digit(low)) as u8;
    AluOut { value: value, carry: high >= 0, overflow: sub_overflows(a, m, value) }
}

/// Add with carry in the mode the decimal flag selects.
pub open spec fn add_with_carry(a: u8, m: u8, carry: bool, decimal: bool) -> AluOut {
    if decimal {
        add_decimal(a, m, carry)
    } else {
        add_binary(a, m, carry)
    }
}

/// Subtract with borrow in the mode the decimal flag selects.
pub open spec fn sub_with_carry(a: u8, m: u8, carry: bool, decimal: bool) -> AluOut {
    if decimal {
        sub_decimal(a, m, carry)
    } else {
        sub_binary(a, m, carry)
    }
}

/// The byte `register - operand` modulo 256, whose sign a comparison
/// reports.
pub open spec fn difference(register: u8, operand: u8) -> u8 {
    ((register - operand) % 256) as u8
}

/// Shift left: bit 7 leaves into the carry.
pub open spec fn shift_left(value: u8) -> u8 {
    ((value * 2) % 256) as u8
}

/// Shift right: bit 0 leaves into the carry.
pub open spec fn shift_right(value: u8) -> u8 {
    value / 2
}

/// Rotate left through the carry: the carry enters at bit 0.
pub open spec fn rotate_left(value: u8, carry: bool) -> u8 {
    ((value * 2) % 256 + bit(carry)) as u8
}

/// Rotate right through the carry: the carry enters at bit 7.
pub open spec fn rotate_right(value: u8, carry: bool) -> u8 {
    (value / 2 + 128 * bit(carry)) as u8
}

/// The target of a taken branch: the signed offset added to the address
/// that follows the branch instruction, modulo 65536.
pub open spec fn branch_target(next: u16, offset: u8) -> u16 {
    ((next + signed(offset)) % 65536) as u16
}

/// Bit 7 of a byte is set exactly when the byte is at least 128, and bit 0
/// exactly when it is odd.
pub proof fn lemma_end_bits(v: u8)
    by (bit_vector)
    ensures
        (v & 0x80 != 0) == (v >= 128),
        (v & 128 == 128) == (v >= 128),
        (v & 0x01 != 0) == (v % 2 == 1),
{
}

/// The sign rules for overflow in their exclusive-or form: two bytes share
/// a sign exactly when bit 7 of their exclusive or is clear.
pub proof fn lemma_sign_rules(a: u8, m: u8, r: u8)
    by (bit_vector)
    ensures
        ((a ^ m) & 0x80 == 0 && (a ^ r) & 0x80 != 0) == ((a >= 128) == (m >= 128) && (r >= 128)
            != (a >= 128)),
        ((a ^ m) & 0x80 != 0 && (a ^ r) & 0x80 != 0) == ((a >= 128) != (m >= 128) && (r >= 128)
            != (a >= 128)),
{
}

/// Masking tests of the status byte read the bits that `flags_of` names.
pub proof fn lemma_status_bits(v: u8)
    by (bit_vector)
    ensures
        (v & 0x01 != 0) == (v % 2 == 1),
        (v & 0x02 != 0) == ((v / 2) % 2 == 1),
        (v & 0x04 != 0) == ((v / 4) % 2 == 1),
        (v & 0x08 != 0) == ((v / 8) % 2 == 1),
        (v & 0x10 != 0) == ((v / 16) % 2 == 1),
        (v & 0x40 != 0) == ((v / 64) % 2 == 1),
        (v & 0x80 != 0) == (v >= 128),
{
}

/// The shifts of the processor compute the arithmetic definitions.
pub proof fn lemma_shifts(v: u8)
    by (bit_vector)
    ensures
        v << 1u8 == ((v * 2) % 256) as u8,
        v >> 1u8 == v / 2,
{
}

/// A rotate left is the shift with the carry placed in bit 0.
pub proof fn lemma_rotate_left(v: u8)
    by (bit_vector)
    ensures
        (v << 1u8) | 1 == ((v * 2) % 256 + 1) as u8,
        (v << 1u8) | 0 == v << 1u8,
{
}

/// A rotate right is the shift with the carry placed in bit 7.
pub proof fn lemma_rotate_right(v: u8)
    by (bit_vector)
    ensures
        (v >> 1u8) | 0x80 == (v / 2 + 128) as u8,
        (v >> 1u8) | 0x00 == v >> 1u8,
{
}

/// Joining two bytes by shift and or gives the word they spell.
pub proof fn lemma_word(low: u8, high: u8)
    by (bit_vector)
    ensures
        ((high as u16) << 8u16) | (low as u16) == (high * 256 + low) as u16,
        high * 256 + low < 65536,
{
}

/// Splitting a word by shift and mask gives its two bytes.
pub proof fn lemma_split(w: u16)
    by (bit_vector)
    ensures
        (w >> 8u16) as u8 == (w / 256) as u8,
        (w & 0xff) as u8 == (w % 256) as u8,
{
}

/// Masks and shifts by a nibble are remainder and quotient by sixteen.
pub proof fn lemma_nibbles(v: u8)
    by (bit_vector)
    ensures
        v & 15 == v % 16,
        v >> 4u8 == v / 16,
{
}

/// Two nibbles joined by shift and or give sixteen times the high one plus
/// the low one.
pub proof fn lemma_join_nibbles(high: u8, low: u8)
    by (bit_vector)
    requires
        high < 16,
        low < 16,
    ensures
        (high << 4u8) | low == (16 * high + low) as u8,
        16 * high + low < 256,
{
}

/// The low byte of a nine-bit sum, and its sign bit, taken by masks.
pub proof fn lemma_sum_bits(total: u16)
    by (bit_vector)
    requires
        total < 512,
    ensures
        (total & 0xFF) as u8 == (total % 256) as u8,
        (total & 0xFF) < 256,
        (total & 0x80 != 0) == ((total % 256) as u8 >= 128),
{
}

/// The overflow flag of a binary addition is set exactly when the sum of
/// the operands read as signed numbers, plus the carry, leaves the range of
/// a signed byte; the carry exactly when the unsigned sum leaves the range
/// of a byte; and without overflow the result is the signed sum.
pub proof fn lemma_add_binary_flags(a: u8, m: u8, carry: bool)
    ensures
        add_binary(a, m, carry).value == (a + m + bit(carry)) % 256,
        add_binary(a, m, carry).carry == (a + m + bit(carry) >= 256),
        add_binary(a, m, carry).overflow == !(-128 <= signed(a) + signed(m) + bit(carry) <= 127),
        !add_binary(a, m, carry).overflow ==> signed(add_binary(a, m, carry).value) == signed(a)
            + signed(m) + bit(carry),
        a + m + bit(carry) == add_binary(a, m, carry).value + 256 * bit(
            add_binary(a, m, carry).carry,
        ),
{
}

/// The overflow flag of a binary subtraction is set exactly when the
/// difference of the operands read as signed numbers, less the borrow,
/// leaves the range of a signed byte; the carry exactly when the unsigned
/// difference is not negative; and without overflow the result is the
/// signed difference.
pub proof fn lemma_sub_binary_flags(a: u8, m: u8, carry: bool)
    ensures
        sub_binary(a, m, carry).value == (a - m - (1 - bit(carry))) % 256,
        sub_binary(a, m, carry).carry == (a >= m + (1 - bit(carry))),
        sub_binary(a, m, carry).overflow == !(-128 <= signed(a) - signed(m) - (1 - bit(carry))
            <= 127),
        !sub_binary(a, m, carry).overflow ==> signed(sub_binary(a, m, carry).value) == signed(a)
            - signed(m) - (1 - bit(carry)),
        a - m - (1 - bit(carry)) == sub_binary(a, m, carry).value - 256 * (1 - bit(
            sub_binary(a, m, carry).carry,
        )),
{
}

/// A byte made of two nibbles has them as quotient and remainder by
/// sixteen.
pub proof fn lemma_digits(high: int, low: int)
    requires
        0 <= high < 16,
        0 <= low < 16,
    ensures
        0 <= 16 * high + low < 256,
        (16 * high + low) / 16 == high,
        (16 * high + low) % 16 == low,
{
}

/// The digit left by a decimal addition of two nibbles: the sum itself up
/// to nine, ten less above nine, and twenty-six less where that still
/// exceeds a nibble.
pub proof fn lemma_add_digit(sum: int)
    requires
        0 <= sum <= 31,
    ensures
        0 <= add_digit(sum) < 16,
        add_digit(sum) == if sum <= 9 {
            sum
        } else if sum <= 25 {
            sum - 10
        } else {
            sum - 26
        },
{
}

/// The digit left by a decimal subtraction of two nibbles: the difference
/// itself when it is not negative, ten more when it is, and twenty-six more
/// where that is still negative.
pub proof fn lemma_sub_digit(diff: int)
    requires
        -17 <= diff <= 15,
    ensures
        0 <= sub_digit(diff) < 16,
        sub_digit(diff) == if diff >= 0 {
            diff
        } else if diff >= -10 {
            diff + 10
        } else {
            diff + 26
        },
{
}

/// Adds two nibbles and a carry as decimal digits: returns the digit that
/// stays and whether a carry leaves.
pub fn add_decimal_digit(x: u8, y: u8, carry: bool) -> (r: (u8, bool))
    requires
        x < 16,
        y < 16,
    ensures
        r.0 == add_digit(x + y + bit(carry)),
        r.0 < 16,
        r.1 == (x + y + bit(carry) > 9),
{
    let c: u8 = if carry {
        1
    } else {
        0
    };
    let sum: u8 = x + y + c;
    proof {
        lemma_add_digit(sum as int);
    }
    if sum <= 9 {
        (sum, false)
    } else if sum <= 25 {
        (sum - 10, true)
    } else {
        (sum - 26, true)
    }
}

/// Subtracts a nibble and a borrow from a nibble as decimal digits:
/// returns the digit that stays and whether a borrow leaves.
pub fn sub_decimal_digit(x: u8, y: u8, borrow: bool) -> (r: (u8, bool))
    requires
        x < 16,
        y < 16,
    ensures
        r.0 == sub_digit(x - y - bit(borrow)),
        r.0 < 16,
        r.1 == (x - y - bit(borrow) < 0),
{
    let take: u8 = if borrow {
        y + 1
    } else {
        y
    };
    proof {
        lemma_sub_digit(x - take);
    }
    if x >= take {
        (x - take, false)
    } else if x + 10 >= take {
        (x + 10 - take, true)
    } else {
        (x + 26 - take, true)
    }
}

/// On packed decimal operands the decimal addition is addition of the
/// numbers they stand for: the result is packed decimal again, and with the
/// carry counted as one hundred it stands for the sum.
pub proof fn lemma_add_decimal_correct(a: u8, m: u8, carry: bool)
    requires
        is_bcd(a),
        is_bcd(m),
    ensures
        is_bcd(add_decimal(a, m, carry).value),
        bcd_value(add_decimal(a, m, carry).value) + 100 * bit(add_decimal(a, m, carry).carry)
            == bcd_value(a) + bcd_value(m) + bit(carry),
{
    let low = a % 16 + m % 16 + bit(carry);
    let high = a / 16 + m / 16 + bit(low > 9);
    assert(add_digit(low) == if low > 9 {
        low - 10
    } else {
        low
    });
    assert(add_digit(high) == if high > 9 {
        high - 10
    } else {
        high
    });
    lemma_digits(add_digit(high), add_digit(low));
}

/// On packed decimal operands the decimal subtraction is subtraction of the
/// numbers they stand for: the result is packed decimal again, and with a
/// borrow counted as one hundred it stands for the difference.
pub proof fn lemma_sub_decimal_correct(a: u8, m: u8, carry: bool)
    requires
        is_bcd(a),
        is_bcd(m),
    ensures
        is_bcd(sub_decimal(a, m, carry).value),
        bcd_value(sub_decimal(a, m, carry).value) - 100 * (1 - bit(
            sub_decimal(a, m, carry).carry,
        )) == bcd_value(a) - bcd_value(m) - (1 - bit(carry)),
{
    let low = a % 16 - m % 16 - (1 - bit(carry));
    let high = a / 16 - m / 16 - bit(low < 0);
    assert(sub_digit(low) == if low < 0 {
        low + 10
    } else {
        low
    });
    assert(sub_digit(high) == if high < 0 {
        high + 10
    } else {
        high
    });
    lemma_digits(sub_digit(high), sub_digit(low));
}

/// Unpacking a packed status byte gives the flags back.
pub proof fn lemma_status_round_trip(f: Flags)
    ensures
        flags_of(status_byte(f)) == f,
{
}

/// A taken branch moves forward by the offset when it is below 128 and
/// backward by 256 less the offset otherwise, with 16-bit wraparound.
pub proof fn lemma_branch_target(next: u16, offset: u8)
    ensures
        offset < 128 ==> branch_target(next, offset) == next.wrapping_add(offset as u16),
        offset >= 128 ==> branch_target(next, offset) == next.wrapping_sub((256 - offset) as u16),
{
}

} // verus!
