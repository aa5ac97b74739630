//! The 6502 as a mathematical machine: its state, how each addressing mode
//! finds an operand, what each instruction does to the state, and which
//! opcode stands for which instruction.

use crate::alu::{
    add_with_carry, branch_target, difference, flags_of, high_byte, is_negative, low_byte,
    rotate_left, rotate_right, shift_left, shift_right, status_byte, sub_with_carry, word, AluOut,
    Flags,
};
use crate::memory::MemState;
use vstd::prelude::*;

verus! {

/// Number of instruction addresses the trace remembers.
pub const TRACE_LEN: usize = 10;

/// Program counter after a reset.
pub const RESET_VECTOR: u16 = 0xFF00;

/// Stack pointer after power-on and after a reset.
pub const INITIAL_SP: u8 = 0xFE;

/// The address of the stack cell that the stack pointer selects.
pub open spec fn stack_address(sp: u8) -> u16 {
    (0x0100 + sp) as u16
}

/// How an instruction finds its operand.
pub enum Mode {
    Immediate,
    ZeroPage,
    ZeroPageX,
    ZeroPageY,
    Absolute,
    AbsoluteX,
    AbsoluteY,
    IndirectX,
    IndirectY,
}

impl Mode {
    /// Number of operand bytes that follow the opcode.
    pub open spec fn operand_len(self) -> u16 {
        match self {
            Mode::Absolute | Mode::AbsoluteX | Mode::AbsoluteY => 2,
            _ => 1,
        }
    }
}

/// A register that can be stored, pushed or pulled.
pub enum Register {
    A,
    X,
    Y,
}

/// Instructions that read one operand and change registers or flags.
pub enum ReadOp {
    Ora,
    And,
    Eor,
    Adc,
    Sbc,
    CompareA,
    CompareX,
    CompareY,
    Lda,
    Ldx,
    Ldy,
    Bit,
}

/// Instructions that read a byte, change it and write it back.
pub enum ModifyOp {
    Asl,
    Lsr,
    Rol,
    Ror,
    Inc,
    Dec,
}

/// The condition under which a branch is taken.
pub enum Condition {
    Plus,
    Minus,
    OverflowClear,
    OverflowSet,
    CarryClear,
    CarrySet,
    NotEqual,
    Equal,
    Always,
}

/// Instructions without an operand that touch only registers and flags.
pub enum ImpliedOp {
    Clc,
    Sec,
    Cli,
    Sei,
    Clv,
    Cld,
    Sed,
    Tax,
    Txa,
    Tay,
    Tya,
    Tsx,
    Txs,
    Inx,
    Dex,
    Iny,
    Dey,
    Nop,
}

/// A decoded instruction.
pub enum Instr {
    Read(ReadOp, Mode),
    Store(Register, Mode),
    Modify(ModifyOp, Mode),
    ModifyAccumulator(ModifyOp),
    Branch(Condition),
    Implied(ImpliedOp),
    Push(Register),
    Pull(Register),
    PushStatus,
    PullStatus,
    Brk,
    Jsr,
    Rti,
    Rts,
    JumpAbsolute,
    JumpIndirect,
}

/// Mathematical model of the processor together with its memory.
pub struct CpuState {
    pub a: u8,
    pub x: u8,
    pub y: u8,
    pub sp: u8,
    pub pc: u16,
    pub flags: Flags,
    /// The status bit that is no flag; it is set at power-on and nothing
    /// clears it.
    pub unused: bool,
    /// Count of status reports taken.
    pub cycle: u16,
    pub mem: MemState,
    /// Addresses of the most recently fetched instructions, oldest first.
    pub trace: Seq<u16>,
}

/// The byte an instruction writes back, for the byte it read and the carry
/// it found.
pub open spec fn modified_value(op: ModifyOp, value: u8, carry: bool) -> u8 {
    match op {
        ModifyOp::Asl => shift_left(value),
        ModifyOp::Lsr => shift_right(value),
        ModifyOp::Rol => rotate_left(value, carry),
        ModifyOp::Ror => rotate_right(value, carry),
        ModifyOp::Inc => value.wrapping_add(1),
        ModifyOp::Dec => value.wrapping_sub(1),
    }
}

/// The carry an instruction leaves: the bit shifted out, taken from the
/// byte before the shift; increments and decrements keep the carry.
pub open spec fn modified_carry(op: ModifyOp, value: u8, carry: bool) -> bool {
    match op {
        ModifyOp::Asl | ModifyOp::Rol => is_negative(value),
        ModifyOp::Lsr | ModifyOp::Ror => value % 2 == 1,
        ModifyOp::Inc | ModifyOp::Dec => carry,
    }
}

impl CpuState {
    /// The memory is complete and the trace has its fixed length.
    pub open spec fn wf(self) -> bool {
        self.mem.wf() && self.trace.len() == TRACE_LEN
    }

    /// The byte read at `address`, and the state after the read.
    pub open spec fn load(self, address: u16) -> (u8, CpuState) {
        (self.mem.read_value(address), CpuState { mem: self.mem.after_read(address), ..self })
    }

    /// The state after a store of `value` to `address`.
    pub open spec fn store(self, address: u16, value: u8) -> CpuState {
        CpuState { mem: self.mem.after_write(address, value), ..self }
    }

    /// The little-endian word read at `address` and the address after it,
    /// with 16-bit wraparound.
    pub open spec fn load_word(self, address: u16) -> (u16, CpuState) {
        let (low, s1) = self.load(address);
        let (high, s2) = s1.load(address.wrapping_add(1));
        (word(low, high), s2)
    }

    /// The little-endian word read from page zero at `pointer` and the cell
    /// after it; the cell after 0xFF is 0x00.
    pub open spec fn load_zero_page_word(self, pointer: u8) -> (u16, CpuState) {
        let (low, s1) = self.load(pointer as u16);
        let (high, s2) = s1.load(pointer.wrapping_add(1) as u16);
        (word(low, high), s2)
    }

    /// The effective address of the operand whose bytes begin at the
    /// program counter, and the state after the reads this takes. The
    /// program counter is left where it is.
    pub open spec fn resolve(self, mode: Mode) -> (u16, CpuState) {
        match mode {
            Mode::Immediate => (self.pc, self),
            Mode::ZeroPage => {
                let (operand, s1) = self.load(self.pc);
                (operand as u16, s1)
            },
            Mode::ZeroPageX => {
                let (operand, s1) = self.load(self.pc);
                (operand.wrapping_add(self.x) as u16, s1)
            },
            Mode::ZeroPageY => {
                let (operand, s1) = self.load(self.pc);
                (operand.wrapping_add(self.y) as u16, s1)
            },
            Mode::Absolute => self.load_word(self.pc),
            Mode::AbsoluteX => {
                let (base, s1) = self.load_word(self.pc);
                (base.wrapping_add(self.x as u16), s1)
            },
            Mode::AbsoluteY => {
                let (base, s1) = self.load_word(self.pc);
                (base.wrapping_add(self.y as u16), s1)
            },
            Mode::IndirectX => {
                let (operand, s1) = self.load(self.pc);
                s1.load_zero_page_word(operand.wrapping_add(self.x))
            },
            Mode::IndirectY => {
                let (operand, s1) = self.load(self.pc);
                let (base, s2) = s1.load_zero_page_word(operand);
                (base.wrapping_add(self.y as u16), s2)
            },
        }
    }

    /// The state with the program counter moved on by `n`, modulo 65536.
    pub open spec fn advance(self, n: u16) -> CpuState {
        CpuState { pc: self.pc.wrapping_add(n), ..self }
    }

    /// The state with the zero and negative flags set from `value`; no
    /// other flag changes.
    pub open spec fn with_nz(self, value: u8) -> CpuState {
        CpuState {
            flags: Flags { zero: value == 0, negative: is_negative(value), ..self.flags },
            ..self
        }
    }

    /// The state after a comparison of `register` with `operand`: carry
    /// when the register is at least the operand, zero when they are equal,
    /// negative from bit 7 of the difference.
    pub open spec fn compared(self, register: u8, operand: u8) -> CpuState {
        CpuState {
            flags: Flags {
                carry: register >= operand,
                zero: register == operand,
                negative: is_negative(difference(register, operand)),
                ..self.flags
            },
            ..self
        }
    }

    /// The state with the result of an addition or subtraction taken in: the
    /// accumulator takes the value, carry and overflow are as computed, and
    /// zero and negative follow the value. No other flag changes.
    pub open spec fn with_result(self, r: AluOut) -> CpuState {
        CpuState {
            a: r.value,
            flags: Flags {
                carry: r.carry,
                overflow: r.overflow,
                zero: r.value == 0,
                negative: is_negative(r.value),
                ..self.flags
            },
            ..self
        }
    }

    /// The state after an add with carry of `operand` to the accumulator,
    /// in the mode that the decimal flag selects.
    pub open spec fn added(self, operand: u8) -> CpuState {
        self.with_result(add_with_carry(self.a, operand, self.flags.carry, self.flags.decimal))
    }

    /// The state after a subtract with borrow of `operand` from the
    /// accumulator, in the mode that the decimal flag selects.
    pub open spec fn subtracted(self, operand: u8) -> CpuState {
        self.with_result(sub_with_carry(self.a, operand, self.flags.carry, self.flags.decimal))
    }

    /// The state after a bit test of the accumulator against `operand`:
    /// zero when they share no bit, negative and overflow from bits 7 and 6
    /// of the operand.
    pub open spec fn bit_tested(self, operand: u8) -> CpuState {
        CpuState {
            flags: Flags {
                zero: self.a & operand == 0,
                negative: is_negative(operand),
                overflow: (operand / 64) % 2 == 1,
                ..self.flags
            },
            ..self
        }
    }

    /// What an operand-reading instruction does with the operand.
    pub open spec fn apply_read(self, op: ReadOp, operand: u8) -> CpuState {
        match op {
            ReadOp::Ora => CpuState { a: self.a | operand, ..self }.with_nz(self.a | operand),
            ReadOp::And => CpuState { a: self.a & operand, ..self }.with_nz(self.a & operand),
            ReadOp::Eor => CpuState { a: self.a ^ operand, ..self }.with_nz(self.a ^ operand),
            ReadOp::Adc => self.added(operand),
            ReadOp::Sbc => self.subtracted(operand),
            ReadOp::CompareA => self.compared(self.a, operand),
            ReadOp::CompareX => self.compared(self.x, operand),
            ReadOp::CompareY => self.compared(self.y, operand),
            ReadOp::Lda => CpuState { a: operand, ..self }.with_nz(operand),
            ReadOp::Ldx => CpuState { x: operand, ..self }.with_nz(operand),
            ReadOp::Ldy => CpuState { y: operand, ..self }.with_nz(operand),
            ReadOp::Bit => self.bit_tested(operand),
        }
    }

    /// The content of a register.
    pub open spec fn register(self, r: Register) -> u8 {
        match r {
            Register::A => self.a,
            Register::X => self.x,
            Register::Y => self.y,
        }
    }

    /// The state with `value` placed in a register.
    pub open spec fn with_register(self, r: Register, value: u8) -> CpuState {
        match r {
            Register::A => CpuState { a: value, ..self },
            Register::X => CpuState { x: value, ..self },
            Register::Y => CpuState { y: value, ..self },
        }
    }

    /// An operand-reading instruction: resolve the address, read the
    /// operand, apply the operation, and step over the operand bytes.
    pub open spec fn read_instr(self, op: ReadOp, mode: Mode) -> CpuState {
        let (address, s1) = self.resolve(mode);
        let (operand, s2) = s1.load(address);
        s2.apply_read(op, operand).advance(mode.operand_len())
    }

    /// A store: resolve the address, write the register, and step over the
    /// operand bytes. No flag changes.
    pub open spec fn store_instr(self, r: Register, mode: Mode) -> CpuState {
        let (address, s1) = self.resolve(mode);
        s1.store(address, self.register(r)).advance(mode.operand_len())
    }

    /// The state with the carry replaced.
    pub open spec fn with_carry(self, carry: bool) -> CpuState {
        CpuState { flags: Flags { carry: carry, ..self.flags }, ..self }
    }

    /// A read-modify-write instruction on memory: the byte at the resolved
    /// address is replaced by the modified byte, the carry takes the bit
    /// shifted out, and zero and negative follow the new byte.
    pub open spec fn modify_instr(self, op: ModifyOp, mode: Mode) -> CpuState {
        let (address, s1) = self.resolve(mode);
        let (value, s2) = s1.load(address);
        let result = modified_value(op, value, self.flags.carry);
        s2.store(address, result).with_carry(modified_carry(op, value, self.flags.carry)).with_nz(
            result,
        ).advance(mode.operand_len())
    }

    /// A shift or rotate of the accumulator.
    pub open spec fn modify_accumulator(self, op: ModifyOp) -> CpuState {
        let result = modified_value(op, self.a, self.flags.carry);
        CpuState { a: result, ..self }.with_carry(
            modified_carry(op, self.a, self.flags.carry),
        ).with_nz(result)
    }

    /// Whether a branch on `condition` is taken.
    pub open spec fn holds(self, condition: Condition) -> bool {
        match condition {
            Condition::Plus => !self.flags.negative,
            Condition::Minus => self.flags.negative,
            Condition::OverflowClear => !self.flags.overflow,
            Condition::OverflowSet => self.flags.overflow,
            Condition::CarryClear => !self.flags.carry,
            Condition::CarrySet => self.flags.carry,
            Condition::NotEqual => !self.flags.zero,
            Condition::Equal => self.flags.zero,
            Condition::Always => true,
        }
    }

    /// A branch: the offset byte is read; a taken branch adds it as a
    /// signed number to the address after the instruction, an untaken one
    /// goes on with that address.
    pub open spec fn branch_instr(self, condition: Condition) -> CpuState {
        let (offset, s1) = self.load(self.pc);
        let next = self.pc.wrapping_add(1);
        CpuState {
            pc: if self.holds(condition) {
                branch_target(next, offset)
            } else {
                next
            },
            ..s1
        }
    }

    /// An instruction on registers and flags alone.
    pub open spec fn implied_instr(self, op: ImpliedOp) -> CpuState {
        match op {
            ImpliedOp::Clc => CpuState { flags: Flags { carry: false, ..self.flags }, ..self },
            ImpliedOp::Sec => CpuState { flags: Flags { carry: true, ..self.flags }, ..self },
            ImpliedOp::Cli => CpuState { flags: Flags { interrupt: false, ..self.flags }, ..self },
            ImpliedOp::Sei => CpuState { flags: Flags { interrupt: true, ..self.flags }, ..self },
            ImpliedOp::Clv => CpuState { flags: Flags { overflow: false, ..self.flags }, ..self },
            ImpliedOp::Cld => CpuState { flags: Flags { decimal: false, ..self.flags }, ..self },
            ImpliedOp::Sed => CpuState { flags: Flags { decimal: true, ..self.flags }, ..self },
            ImpliedOp::Tax => CpuState { x: self.a, ..self }.with_nz(self.a),
            ImpliedOp::Txa => CpuState { a: self.x, ..self }.with_nz(self.x),
            ImpliedOp::Tay => CpuState { y: self.a, ..self }.with_nz(self.a),
            ImpliedOp::Tya => CpuState { a: self.y, ..self }.with_nz(self.y),
            ImpliedOp::Tsx => CpuState { x: self.sp, ..self }.with_nz(self.sp),
            ImpliedOp::Txs => CpuState { sp: self.x, ..self },
            ImpliedOp::Inx => CpuState { x: self.x.wrapping_add(1), ..self }.with_nz(
                self.x.wrapping_add(1),
            ),
            ImpliedOp::Dex => CpuState { x: self.x.wrapping_sub(1), ..self }.with_nz(
                self.x.wrapping_sub(1),
            ),
            ImpliedOp::Iny => CpuState { y: self.y.wrapping_add(1), ..self }.with_nz(
                self.y.wrapping_add(1),
            ),
            ImpliedOp::Dey => CpuState { y: self.y.wrapping_sub(1), ..self }.with_nz(
                self.y.wrapping_sub(1),
            ),
            ImpliedOp::Nop => self,
        }
    }

    /// A push: the byte is written at the cell the stack pointer selects,
    /// then the stack pointer goes down by one, modulo 256.
    pub open spec fn push(self, value: u8) -> CpuState {
        CpuState { sp: self.sp.wrapping_sub(1), ..self.store(stack_address(self.sp), value) }
    }

    /// A pull: the stack pointer goes up by one, modulo 256, then the byte
    /// at the cell it selects is read.
    pub open spec fn pull(self) -> (u8, CpuState) {
        let sp = self.sp.wrapping_add(1);
        CpuState { sp: sp, ..self }.load(stack_address(sp))
    }

    /// A push of a register. No flag changes.
    pub open spec fn push_instr(self, r: Register) -> CpuState {
        self.push(self.register(r))
    }

    /// A pull into a register; zero and negative follow the byte.
    pub open spec fn pull_instr(self, r: Register) -> CpuState {
        let (value, s1) = self.pull();
        s1.with_register(r, value).with_nz(value)
    }

    /// A push of the status: the break flag and the unused bit are set,
    /// then the status byte is pushed.
    pub open spec fn push_status(self) -> CpuState {
        let flags = Flags { brk: true, ..self.flags };
        CpuState { flags: flags, unused: true, ..self }.push(status_byte(flags))
    }

    /// A pull of the status: all seven flags are taken from the byte.
    pub open spec fn pull_status(self) -> CpuState {
        let (value, s1) = self.pull();
        CpuState { flags: flags_of(value), ..s1 }
    }

    /// A break, entered with the program counter one past its opcode: the
    /// program counter returns to the opcode, the break flag is set, and
    /// the address of the opcode (high byte, then low byte) and the status
    /// byte are pushed. The processor stays on the break until its driver
    /// sends it through an interrupt vector.
    pub open spec fn brk_instr(self) -> CpuState {
        let at = self.pc.wrapping_sub(1);
        let flags = Flags { brk: true, ..self.flags };
        CpuState { pc: at, flags: flags, ..self }.push(high_byte(at)).push(low_byte(at)).push(
            status_byte(flags),
        )
    }

    /// A return from interrupt: the flags are pulled, then the low and the
    /// high byte of the program counter.
    pub open spec fn rti_instr(self) -> CpuState {
        let s1 = self.pull_status();
        let (low, s2) = s1.pull();
        let (high, s3) = s2.pull();
        CpuState { pc: word(low, high), ..s3 }
    }

    /// A jump to subroutine, entered with the program counter at its
    /// operand: the target is read, the address of the last operand byte is
    /// pushed (high byte, then low byte), and the target becomes the program
    /// counter.
    pub open spec fn jsr_instr(self) -> CpuState {
        let (target, s1) = self.load_word(self.pc);
        let back = self.pc.wrapping_add(1);
        CpuState { pc: target, ..s1.push(high_byte(back)).push(low_byte(back)) }
    }

    /// A return from subroutine: the low and the high byte of an address
    /// are pulled, and the program counter becomes that address plus one.
    pub open spec fn rts_instr(self) -> CpuState {
        let (low, s1) = self.pull();
        let (high, s2) = s1.pull();
        CpuState { pc: word(low, high).wrapping_add(1), ..s2 }
    }

    /// A jump to the address that the operand spells.
    pub open spec fn jump_absolute(self) -> CpuState {
        let (target, s1) = self.load_word(self.pc);
        CpuState { pc: target, ..s1 }
    }

    /// A jump to the address stored where the operand points.
    pub open spec fn jump_indirect(self) -> CpuState {
        let (pointer, s1) = self.load_word(self.pc);
        let (target, s2) = s1.load_word(pointer);
        CpuState { pc: target, ..s2 }
    }

    /// What an instruction does, entered with the program counter one past
    /// its opcode.
    pub open spec fn perform(self, instr: Instr) -> CpuState {
        match instr {
            Instr::Read(op, mode) => self.read_instr(op, mode),
            Instr::Store(r, mode) => self.store_instr(r, mode),
            Instr::Modify(op, mode) => self.modify_instr(op, mode),
            Instr::ModifyAccumulator(op) => self.modify_accumulator(op),
            Instr::Branch(condition) => self.branch_instr(condition),
            Instr::Implied(op) => self.implied_instr(op),
            Instr::Push(r) => self.push_instr(r),
            Instr::Pull(r) => self.pull_instr(r),
            Instr::PushStatus => self.push_status(),
            Instr::PullStatus => self.pull_status(),
            Instr::Brk => self.brk_instr(),
            Instr::Jsr => self.jsr_instr(),
            Instr::Rti => self.rti_instr(),
            Instr::Rts => self.rts_instr(),
            Instr::JumpAbsolute => self.jump_absolute(),
            Instr::JumpIndirect => self.jump_indirect(),
        }
    }

    /// The state after the opcode at the program counter has been fetched:
    /// the address of the instruction enters the trace, pushing the oldest
    /// entry out, and the program counter moves past the opcode.
    pub open spec fn fetched(self) -> (u8, CpuState) {
        let (opcode, s1) = self.load(self.pc);
        (
            opcode,
            CpuState {
                pc: self.pc.wrapping_add(1),
                trace: self.trace.drop_first().push(self.pc),
                ..s1
            },
        )
    }

    /// One instruction: fetch, decode, perform. An opcode that stands for no
    /// instruction is fetched and nothing more.
    pub open spec fn step(self) -> CpuState {
        let (opcode, s1) = self.fetched();
        match decode(opcode) {
            Some(instr) => s1.perform(instr),
            None => s1,
        }
    }

    /// Whether the opcode at the program counter stands for an instruction.
    pub open spec fn at_valid_opcode(self) -> bool {
        decode(self.mem.read_value(self.pc)) is Some
    }
}

/// The addressing mode that the three mode bits of an opcode select in the
/// accumulator group of instructions.
pub open spec fn accumulator_group_mode(bits: u8) -> Mode {
    if bits == 0 {
        Mode::IndirectX
    } else if bits == 1 {
        Mode::ZeroPage
    } else if bits == 2 {
        Mode::Immediate
    } else if bits == 3 {
        Mode::Absolute
    } else if bits == 4 {
        Mode::IndirectY
    } else if bits == 5 {
        Mode::ZeroPageX
    } else if bits == 6 {
        Mode::AbsoluteY
    } else {
        Mode::AbsoluteX
    }
}

/// The instruction that an opcode stands for, if any.
pub open spec fn decode(opcode: u8) -> Option<Instr> {
    let mode = accumulator_group_mode((opcode / 4) % 8);
    if opcode % 4 == 1 {
        // The accumulator group: operation in the top three bits.
        let group = opcode / 32;
        if group == 0 {
            Some(Instr::Read(ReadOp::Ora, mode))
        } else if group == 1 {
            Some(Instr::Read(ReadOp::And, mode))
        } else if group == 2 {
            Some(Instr::Read(ReadOp::Eor, mode))
        } else if group == 3 {
            Some(Instr::Read(ReadOp::Adc, mode))
        } else if group == 4 {
            if opcode == 0x89 {
                None
            } else {
                Some(Instr::Store(Register::A, mode))
            }
        } else if group == 5 {
            Some(Instr::Read(ReadOp::Lda, mode))
        } else if group == 6 {
            Some(Instr::Read(ReadOp::CompareA, mode))
        } else {
            Some(Instr::Read(ReadOp::Sbc, mode))
        }
    } else {
        decode_rest(opcode)
    }
}

/// The opcodes outside the accumulator group.
pub open spec fn decode_rest(opcode: u8) -> Option<Instr> {
    match opcode {
        0x00 => Some(Instr::Brk),
        0x20 => Some(Instr::Jsr),
        0x40 => Some(Instr::Rti),
        0x60 => Some(Instr::Rts),
        0x4c => Some(Instr::JumpAbsolute),
        0x6c => Some(Instr::JumpIndirect),
        0x08 => Some(Instr::PushStatus),
        0x28 => Some(Instr::PullStatus),
        0x48 => Some(Instr::Push(Register::A)),
        0x68 => Some(Instr::Pull(Register::A)),
        0xda => Some(Instr::Push(Register::X)),
        0xfa => Some(Instr::Pull(Register::X)),
        0x5a => Some(Instr::Push(Register::Y)),
        0x7a => Some(Instr::Pull(Register::Y)),
        0x10 => Some(Instr::Branch(Condition::Plus)),
        0x30 => Some(Instr::Branch(Condition::Minus)),
        0x50 => Some(Instr::Branch(Condition::OverflowClear)),
        0x70 => Some(Instr::Branch(Condition::OverflowSet)),
        0x90 => Some(Instr::Branch(Condition::CarryClear)),
        0xb0 => Some(Instr::Branch(Condition::CarrySet)),
        0xd0 => Some(Instr::Branch(Condition::NotEqual)),
        0xf0 => Some(Instr::Branch(Condition::Equal)),
        0x80 => Some(Instr::Branch(Condition::Always)),
        0x18 => Some(Instr::Implied(ImpliedOp::Clc)),
        0x38 => Some(Instr::Implied(ImpliedOp::Sec)),
        0x58 => Some(Instr::Implied(ImpliedOp::Cli)),
        0x78 => Some(Instr::Implied(ImpliedOp::Sei)),
        0xb8 => Some(Instr::Implied(ImpliedOp::Clv)),
        0xd8 => Some(Instr::Implied(ImpliedOp::Cld)),
        0xf8 => Some(Instr::Implied(ImpliedOp::Sed)),
        0xaa => Some(Instr::Implied(ImpliedOp::Tax)),
        0x8a => Some(Instr::Implied(ImpliedOp::Txa)),
        0xa8 => Some(Instr::Implied(ImpliedOp::Tay)),
        0x98 => Some(Instr::Implied(ImpliedOp::Tya)),
        0xba => Some(Instr::Implied(ImpliedOp::Tsx)),
        0x9a => Some(Instr::Implied(ImpliedOp::Txs)),
        0xe8 => Some(Instr::Implied(ImpliedOp::Inx)),
        0xca => Some(Instr::Implied(ImpliedOp::Dex)),
        0xc8 => Some(Instr::Implied(ImpliedOp::Iny)),
        0x88 => Some(Instr::Implied(ImpliedOp::Dey)),
        0xea => Some(Instr::Implied(ImpliedOp::Nop)),
        0x24 => Some(Instr::Read(ReadOp::Bit, Mode::ZeroPage)),
        0x2c => Some(Instr::Read(ReadOp::Bit, Mode::Absolute)),
        0xa2 => Some(Instr::Read(ReadOp::Ldx, Mode::Immediate)),
        0xa6 => Some(Instr::Read(ReadOp::Ldx, Mode::ZeroPage)),
        0xb6 => Some(Instr::Read(ReadOp::Ldx, Mode::ZeroPageY)),
        0xae => Some(Instr::Read(ReadOp::Ldx, Mode::Absolute)),
        0xbe => Some(Instr::Read(ReadOp::Ldx, Mode::AbsoluteY)),
        0xa0 => Some(Instr::Read(ReadOp::Ldy, Mode::Immediate)),
        0xa4 => Some(Instr::Read(ReadOp::Ldy, Mode::ZeroPage)),
        0xb4 => Some(Instr::Read(ReadOp::Ldy, Mode::ZeroPageX)),
        0xac => Some(Instr::Read(ReadOp::Ldy, Mode::Absolute)),
        0xbc => Some(Instr::Read(ReadOp::Ldy, Mode::AbsoluteX)),
        0xe0 => Some(Instr::Read(ReadOp::CompareX, Mode::Immediate)),
        0xe4 => Some(Instr::Read(ReadOp::CompareX, Mode::ZeroPage)),
        0xec => Some(Instr::Read(ReadOp::CompareX, Mode::Absolute)),
        0xc0 => Some(Instr::Read(ReadOp::CompareY, Mode::Immediate)),
        0xc4 => Some(Instr::Read(ReadOp::CompareY, Mode::ZeroPage)),
        0xcc => Some(Instr::Read(ReadOp::CompareY, Mode::Absolute)),
        0x86 => Some(Instr::Store(Register::X, Mode::ZeroPage)),
        0x96 => Some(Instr::Store(Register::X, Mode::ZeroPageY)),
        0x8e => Some(Instr::Store(Register::X, Mode::Absolute)),
        0x84 => Some(Instr::Store(Register::Y, Mode::ZeroPage)),
        0x94 => Some(Instr::Store(Register::Y, Mode::ZeroPageX)),
        0x8c => Some(Instr::Store(Register::Y, Mode::Absolute)),
        0x0a => Some(Instr::ModifyAccumulator(ModifyOp::Asl)),
        0x2a => Some(Instr::ModifyAccumulator(ModifyOp::Rol)),
        0x4a => Some(Instr::ModifyAccumulator(ModifyOp::Lsr)),
        0x6a => Some(Instr::ModifyAccumulator(ModifyOp::Ror)),
        0x06 => Some(Instr::Modify(ModifyOp::Asl, Mode::ZeroPage)),
        0x16 => Some(Instr::Modify(ModifyOp::Asl, Mode::ZeroPageX)),
        0x0e => Some(Instr::Modify(ModifyOp::Asl, Mode::Absolute)),
        0x1e => Some(Instr::Modify(ModifyOp::Asl, Mode::AbsoluteX)),
        0x26 => Some(Instr::Modify(ModifyOp::Rol, Mode::ZeroPage)),
        0x36 => Some(Instr::Modify(ModifyOp::Rol, Mode::ZeroPageX)),
        0x2e => Some(Instr::Modify(ModifyOp::Rol, Mode::Absolute)),
        0x3e => Some(Instr::Modify(ModifyOp::Rol, Mode::AbsoluteX)),
        0x46 => Some(Instr::Modify(ModifyOp::Lsr, Mode::ZeroPage)),
        0x56 => Some(Instr::Modify(ModifyOp::Lsr, Mode::ZeroPageX)),
        0x4e => Some(Instr::Modify(ModifyOp::Lsr, Mode::Absolute)),
        0x5e => Some(Instr::Modify(ModifyOp::Lsr, Mode::AbsoluteX)),
        0x66 => Some(Instr::Modify(ModifyOp::Ror, Mode::ZeroPage)),
        0x76 => Some(Instr::Modify(ModifyOp::Ror, Mode::ZeroPageX)),
        0x6e => Some(Instr::Modify(ModifyOp::Ror, Mode::Absolute)),
        0x7e => Some(Instr::Modify(ModifyOp::Ror, Mode::AbsoluteX)),
        0xc6 => Some(Instr::Modify(ModifyOp::Dec, Mode::ZeroPage)),
        0xd6 => Some(Instr::Modify(ModifyOp::Dec, Mode::ZeroPageX)),
        0xce => Some(Instr::Modify(ModifyOp::Dec, Mode::Absolute)),
        0xde => Some(Instr::Modify(ModifyOp::Dec, Mode::AbsoluteX)),
        0xe6 => Some(Instr::Modify(ModifyOp::Inc, Mode::ZeroPage)),
        0xf6 => Some(Instr::Modify(ModifyOp::Inc, Mode::ZeroPageX)),
        0xee => Some(Instr::Modify(ModifyOp::Inc, Mode::Absolute)),
        0xfe => Some(Instr::Modify(ModifyOp::Inc, Mode::AbsoluteX)),
        _ => None,
    }
}

} // verus!
