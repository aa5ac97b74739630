//! The 6502 processor: registers, flags and the memory it owns, with one
//! handler per opcode and a single-step `execute`.

use crate::alu::{
    add_binary, add_decimal, add_decimal_digit, add_overflows, bit, branch_target, flags_of,
    lemma_branch_target, lemma_end_bits, lemma_join_nibbles, lemma_nibbles, lemma_rotate_left,
    lemma_rotate_right, lemma_shifts, lemma_sign_rules, lemma_split, lemma_status_bits,
    lemma_sum_bits, lemma_word,
    status_byte, sub_binary, sub_decimal, sub_decimal_digit, sub_overflows, Flags,
};
use crate::machine::{
    accumulator_group_mode, decode, stack_address, Condition, CpuState, ImpliedOp, Mode,
    ModifyOp, ReadOp, Register, INITIAL_SP, RESET_VECTOR,
};
use crate::memory::{lemma_after_load, offset_address, MemState, MemoryArray, MemoryCell};
use vstd::prelude::*;

verus! {

/// The processor with its memory.
#[derive(Debug, Copy, Clone)]
pub struct Cpu6502 {
    pub a: u8,
    pub x: u8,
    pub y: u8,
    pub sp: u8,
    pub pc: u16,
    pub carry_flag: bool,
    pub zero_flag: bool,
    pub overflow_flag: bool,
    pub decimal_flag: bool,
    pub interrupt_flag: bool,
    pub negative_flag: bool,
    pub break_flag: bool,
    pub unused_flag: bool,
    /// Number of status reports taken so far, modulo 65536.
    pub cycle: u16,
    pub memory: MemoryArray,
    /// Addresses of the ten most recently fetched instructions, oldest
    /// first.
    pub trace: [u16; 10],
}

impl View for Cpu6502 {
    type V = CpuState;

    open spec fn view(&self) -> CpuState {
        CpuState {
            a: self.a,
            x: self.x,
            y: self.y,
            sp: self.sp,
            pc: self.pc,
            flags: Flags {
                carry: self.carry_flag,
                zero: self.zero_flag,
                interrupt: self.interrupt_flag,
                decimal: self.decimal_flag,
                brk: self.break_flag,
                overflow: self.overflow_flag,
                negative: self.negative_flag,
            },
            unused: self.unused_flag,
            cycle: self.cycle,
            mem: self.memory@,
            trace: self.trace@,
        }
    }
}

/// The processor under its short name.
pub type Cpu = Cpu6502;

/// The registers, flags, counter and trace of a processor at power-on or
/// after a reset, over the given memory and with the given program counter.
pub open spec fn initial_state(mem: MemState, pc: u16) -> CpuState {
    CpuState {
        a: 0,
        x: 0,
        y: 0,
        sp: INITIAL_SP,
        pc: pc,
        flags: Flags {
            carry: false,
            zero: false,
            interrupt: false,
            decimal: false,
            brk: false,
            overflow: false,
            negative: false,
        },
        unused: true,
        cycle: 0,
        mem: mem,
        trace: Seq::new(10, |i: int| 0u16),
    }
}

impl Default for Cpu6502 {
    /// The processor at power-on, as `new` gives it.
    fn default() -> (cpu: Self)
        ensures
            cpu@.wf(),
            cpu@ == initial_state(cpu@.mem, 0),
            forall|a: int|
                0 <= a < 65536 ==> cpu@.mem.cells[a].value == 0 && !cpu@.mem.cells[a].readonly,
            !cpu@.mem.key_ready,
            cpu@.mem.key_value == 0,
            !cpu@.mem.output_waiting,
            cpu@.mem.output_char == 0,
    {
        Self::new()
    }
}

impl Cpu6502 {
    /// A processor at power-on: registers and flags cleared, the stack
    /// pointer at 0xFE, the program counter at zero, over zeroed memory.
    pub fn new() -> (cpu: Cpu6502)
        ensures
            cpu@.wf(),
            cpu@ == initial_state(cpu@.mem, 0),
            forall|a: int|
                0 <= a < 65536 ==> cpu@.mem.cells[a].value == 0 && !cpu@.mem.cells[a].readonly,
            !cpu@.mem.key_ready,
            cpu@.mem.key_value == 0,
            !cpu@.mem.output_waiting,
            cpu@.mem.output_char == 0,
    {
        let cpu = Cpu6502 {
            a: 0,
            x: 0,
            y: 0,
            sp: INITIAL_SP,
            pc: 0,
            carry_flag: false,
            zero_flag: false,
            overflow_flag: false,
            decimal_flag: false,
            interrupt_flag: false,
            negative_flag: false,
            break_flag: false,
            unused_flag: true,
            cycle: 0,
            memory: MemoryArray::init(),
            trace: [0;10],
        };
        assert(cpu@.trace =~= Seq::new(10, |i: int| 0u16));
        cpu
    }

    /// Sets the program counter to zero.
    pub fn reset_pc(&mut self)
        ensures
            final(self)@ == (CpuState { pc: 0, ..old(self)@ }),
    {
        self.pc = 0;
    }

    /// Returns registers, flags, counter and trace to their power-on values
    /// and the program counter to the reset vector. The memory and its
    /// devices are kept.
    pub fn reset(&mut self)
        ensures
            final(self)@ == initial_state(old(self)@.mem, RESET_VECTOR),
    {
        self.a = 0;
        self.x = 0;
        self.y = 0;
        self.sp = INITIAL_SP;
        self.carry_flag = false;
        self.zero_flag = false;
        self.overflow_flag = false;
        self.decimal_flag = false;
        self.interrupt_flag = false;
        self.negative_flag = false;
        self.break_flag = false;
        self.unused_flag = true;
        self.cycle = 0;
        self.trace = [0;10];
        self.pc = RESET_VECTOR;
        assert(self@.trace =~= Seq::new(10, |i: int| 0u16));
    }

    /// Places a key in the keyboard register for the program to read.
    pub fn set_keypress(&mut self, keypress: u8)
        ensures
            final(self)@ == (CpuState {
                mem: MemState { key_ready: true, key_value: keypress, ..old(self)@.mem },
                ..old(self)@
            }),
    {
        self.memory.apple_key_ready = true;
        self.memory.apple_key_value = keypress;
    }

    /// Stores the bytes of `data` at `address` and the addresses after it,
    /// wrapping from 0xFFFF to 0x0000. Each byte is stored as a program
    /// would store it: write-protected cells keep their bytes, and no
    /// protection is changed. Of an image that fits the address space, byte
    /// `k` ends up in the cell `k` places after `address` if that cell is
    /// writable, and every other cell is as it was.
    pub fn load_data_into_memory(&mut self, address: u16, data: Vec<u8>)
        ensures
            final(self)@ == (CpuState {
                mem: old(self)@.mem.after_load(address, data@),
                ..old(self)@
            }),
            data@.len() <= 65536 ==> forall|a: int|
                0 <= a < 65536 ==> (#[trigger] final(self)@.mem.cells[a]) == (if (a - address)
                    % 65536 < data@.len() && !old(self)@.mem.cells[a].readonly {
                    MemoryCell { value: data@[(a - address) % 65536], readonly: false }
                } else {
                    old(self)@.mem.cells[a]
                }),
    {
        let mut target: u16 = address;
        let mut i: usize = 0;
        let ghost start = self.memory@;
        assert(data@.take(0) =~= Seq::<u8>::empty());
        while i < data.len()
            invariant
                i <= data.len(),
                target == offset_address(address, i as int),
                self.memory@ == start.after_load(address, data@.take(i as int)),
                *self == (Cpu6502 { memory: self.memory, ..*old(self) }),
            decreases data.len() - i,
        {
            assert(data@.take(i + 1).drop_last() =~= data@.take(i as int));
            assert(data@.take(i + 1).last() == data@[i as int]);
            self.memory.write(target, data[i]);
            target = target.wrapping_add(1);
            i = i + 1;
        }
        assert(data@.take(data.len() as int) =~= data@);
        proof {
            if data@.len() <= 65536 {
                lemma_after_load(start, address, data@);
            }
        }
    }

    /// Executes the instruction at the program counter. The address of the
    /// instruction enters the trace first. Returns whether the opcode stands
    /// for an instruction; where it does not, the opcode is skipped and the
    /// trace tells where the processor has been.
    pub fn execute(&mut self) -> (ok: bool)
        ensures
            final(self)@ == old(self)@.step(),
            ok == old(self)@.at_valid_opcode(),
    {
        let at: u16 = self.pc;
        let code: u8 = self.memory.read(at);
        self.record_trace(at);
        self.pc = self.pc.wrapping_add(1);
        self.dispatch(code)
    }

    /// Performs the instruction that `code` stands for, if any, and tells
    /// whether there is one. The two low bits of an opcode select its group.
    fn dispatch(&mut self, code: u8) -> (ok: bool)
        ensures
            ok == (decode(code) is Some),
            final(self)@ == (match decode(code) {
                Some(instr) => old(self)@.perform(instr),
                None => old(self)@,
            }),
    {
        let group: u8 = code % 4;
        if group == 0 {
            self.dispatch_control_group(code)
        } else if group == 1 {
            self.dispatch_accumulator_group(code)
        } else if group == 2 {
            self.dispatch_modify_group(code)
        } else {
            false
        }
    }

    /// The opcodes whose low bits are 00: control flow, flags, stack, and the
    /// instructions on the Y register.
    fn dispatch_control_group(&mut self, code: u8) -> (ok: bool)
        requires
            code % 4 == 0,
        ensures
            ok == (decode(code) is Some),
            final(self)@ == (match decode(code) {
                Some(instr) => old(self)@.perform(instr),
                None => old(self)@,
            }),
    {
        match code {
            0x00 => {
                self.brk();
                true
            },
            0x08 => {
                self.php();
                true
            },
            0x10 => {
                self.bpl();
                true
            },
            0x18 => {
                self.clc();
                true
            },
            0x20 => {
                self.jsr();
                true
            },
            0x24 => {
                self.bit_zeropage();
                true
            },
            0x28 => {
                self.plp();
                true
            },
            0x2c => {
                self.bit_absolute();
                true
            },
            0x30 => {
                self.bmi();
                true
            },
            0x38 => {
                self.sec();
                true
            },
            0x40 => {
                self.rti();
                true
            },
            0x48 => {
                self.pha();
                true
            },
            0x4c => {
                self.jmp_absolute();
                true
            },
            0x50 => {
                self.bvc();
                true
            },
            0x58 => {
                self.cli();
                true
            },
            0x60 => {
                self.rts();
                true
            },
            0x68 => {
                self.pla();
                true
            },
            0x6c => {
                self.jmp_indirect();
                true
            },
            0x70 => {
                self.bvs();
                true
            },
            0x78 => {
                self.sei();
                true
            },
            0x80 => {
                self.bra();
                true
            },
            0x84 => {
                self.sty_zeropage();
                true
            },
            0x88 => {
                self.dey();
                true
            },
            0x8c => {
                self.sty_absolute();
                true
            },
            0x90 => {
                self.bcc();
                true
            },
            0x94 => {
                self.sty_zeropage_x();
                true
            },
            0x98 => {
                self.tya();
                true
            },
            0xa0 => {
                self.ldy_immediate();
                true
            },
            0xa4 => {
                self.ldy_zeropage();
                true
            },
            0xa8 => {
                self.tay();
                true
            },
            0xac => {
                self.ldy_absolute();
                true
            },
            0xb0 => {
                self.bcs();
                true
            },
            0xb4 => {
                self.ldy_zeropage_x();
                true
            },
            0xb8 => {
                self.clv();
                true
            },
            0xbc => {
                self.ldy_absolute_x();
                true
            },
            0xc0 => {
                self.cpy_immediate();
                true
            },
            0xc4 => {
                self.cpy_zeropage();
                true
            },
            0xc8 => {
                self.iny();
                true
            },
            0xcc => {
                self.cpy_absolute();
                true
            },
            0xd0 => {
                self.bne();
                true
            },
            0xd8 => {
                self.cld();
                true
            },
            0xe0 => {
                self.cpx_immediate();
                true
            },
            0xe4 => {
                self.cpx_zeropage();
                true
            },
            0xe8 => {
                self.inx();
                true
            },
            0xec => {
                self.cpx_absolute();
                true
            },
            0xf0 => {
                self.beq();
                true
            },
            0xf8 => {
                self.sed();
                true
            },
            _ => false,
        }
    }

    /// The opcodes whose low bits are 01: the instructions on the
    /// accumulator. The three high bits select the operation and the three
    /// bits between the addressing mode.
    fn dispatch_accumulator_group(&mut self, code: u8) -> (ok: bool)
        requires
            code % 4 == 1,
        ensures
            ok == (decode(code) is Some),
            final(self)@ == (match decode(code) {
                Some(instr) => old(self)@.perform(instr),
                None => old(self)@,
            }),
    {
        let operation: u8 = code / 32;
        let mode: u8 = (code / 4) % 8;
        if operation == 0 {
            self.dispatch_ora(mode);
            true
        } else if operation == 1 {
            self.dispatch_and(mode);
            true
        } else if operation == 2 {
            self.dispatch_eor(mode);
            true
        } else if operation == 3 {
            self.dispatch_adc(mode);
            true
        } else if operation == 4 {
            if mode == 2 {
                false
            } else {
                self.dispatch_sta(mode);
                true
            }
        } else if operation == 5 {
            self.dispatch_lda(mode);
            true
        } else if operation == 6 {
            self.dispatch_compare(mode);
            true
        } else {
            self.dispatch_sbc(mode);
            true
        }
    }

    /// ORA in the addressing mode that the mode bits select.
    fn dispatch_ora(&mut self, mode: u8)
        requires
            mode < 8,
        ensures
            final(self)@ == old(self)@.read_instr(ReadOp::Ora, accumulator_group_mode(mode)),
    {
        if mode == 0 {
            self.ora_indirect_x();
        } else if mode == 1 {
            self.ora_zeropage();
        } else if mode == 2 {
            self.ora_immediate();
        } else if mode == 3 {
            self.ora_absolute();
        } else if mode == 4 {
            self.ora_indirect_y();
        } else if mode == 5 {
            self.ora_zeropage_x();
        } else if mode == 6 {
            self.ora_absolute_y();
        } else {
            self.ora_absolute_x();
        }
    }

    /// AND in the addressing mode that the mode bits select.
    fn dispatch_and(&mut self, mode: u8)
        requires
            mode < 8,
        ensures
            final(self)@ == old(self)@.read_instr(ReadOp::And, accumulator_group_mode(mode)),
    {
        if mode == 0 {
            self.and_indirect_x();
        } else if mode == 1 {
            self.and_zeropage();
        } else if mode == 2 {
            self.and_immediate();
        } else if mode == 3 {
            self.and_absolute();
        } else if mode == 4 {
            self.and_indirect_y();
        } else if mode == 5 {
            self.and_zeropage_x();
        } else if mode == 6 {
            self.and_absolute_y();
        } else {
            self.and_absolute_x();
        }
    }

    /// EOR in the addressing mode that the mode bits select.
    fn dispatch_eor(&mut self, mode: u8)
        requires
            mode < 8,
        ensures
            final(self)@ == old(self)@.read_instr(ReadOp::Eor, accumulator_group_mode(mode)),
    {
        if mode == 0 {
            self.eor_indirect_x();
        } else if mode == 1 {
            self.eor_zeropage();
        } else if mode == 2 {
            self.eor_immediate();
        } else if mode == 3 {
            self.eor_absolute();
        } else if mode == 4 {
            self.eor_indirect_y();
        } else if mode == 5 {
            self.eor_zeropage_x();
        } else if mode == 6 {
            self.eor_absolute_y();
        } else {
            self.eor_absolute_x();
        }
    }

    /// ADC in the addressing mode that the mode bits select.
    fn dispatch_adc(&mut self, mode: u8)
        requires
            mode < 8,
        ensures
            final(self)@ == old(self)@.read_instr(ReadOp::Adc, accumulator_group_mode(mode)),
    {
        if mode == 0 {
            self.adc_indirect_x();
        } else if mode == 1 {
            self.adc_zeropage();
        } else if mode == 2 {
            self.adc_immediate();
        } else if mode == 3 {
            self.adc_absolute();
        } else if mode == 4 {
            self.adc_indirect_y();
        } else if mode == 5 {
            self.adc_zeropage_x();
        } else if mode == 6 {
            self.adc_absolute_y();
        } else {
            self.adc_absolute_x();
        }
    }

    /// STA in the addressing mode that the mode bits select.
    fn dispatch_sta(&mut self, mode: u8)
        requires
            mode < 8,
            mode != 2,
        ensures
            final(self)@ == old(self)@.store_instr(Register::A, accumulator_group_mode(mode)),
    {
        if mode == 0 {
            self.sta_indirect_x();
        } else if mode == 1 {
            self.sta_zeropage();
        } else if mode == 3 {
            self.sta_absolute();
        } else if mode == 4 {
            self.sta_indirect_y();
        } else if mode == 5 {
            self.sta_zeropage_x();
        } else if mode == 6 {
            self.sta_absolute_y();
        } else {
            self.sta_absolute_x();
        }
    }

    /// LDA in the addressing mode that the mode bits select.
    fn dispatch_lda(&mut self, mode: u8)
        requires
            mode < 8,
        ensures
            final(self)@ == old(self)@.read_instr(ReadOp::Lda, accumulator_group_mode(mode)),
    {
        if mode == 0 {
            self.lda_indirect_x();
        } else if mode == 1 {
            self.lda_zeropage();
        } else if mode == 2 {
            self.lda_immediate();
        } else if mode == 3 {
            self.lda_absolute();
        } else if mode == 4 {
            self.lda_indirect_y();
        } else if mode == 5 {
            self.lda_zeropage_x();
        } else if mode == 6 {
            self.lda_absolute_y();
        } else {
            self.lda_absolute_x();
        }
    }

    /// CMP in the addressing mode that the mode bits select.
    fn dispatch_compare(&mut self, mode: u8)
        requires
            mode < 8,
        ensures
            final(self)@ == old(self)@.read_instr(ReadOp::CompareA, accumulator_group_mode(mode)),
    {
        if mode == 0 {
            self.cmp_indirect_x();
        } else if mode == 1 {
            self.cmp_zeropage();
        } else if mode == 2 {
            self.cmp_immediate();
        } else if mode == 3 {
            self.cmp_absolute();
        } else if mode == 4 {
            self.cmp_indirect_y();
        } else if mode == 5 {
            self.cmp_zeropage_x();
        } else if mode == 6 {
            self.cmp_absolute_y();
        } else {
            self.cmp_absolute_x();
        }
    }

    /// SBC in the addressing mode that the mode bits select.
    fn dispatch_sbc(&mut self, mode: u8)
        requires
            mode < 8,
        ensures
            final(self)@ == old(self)@.read_instr(ReadOp::Sbc, accumulator_group_mode(mode)),
    {
        if mode == 0 {
            self.sbc_indirect_x();
        } else if mode == 1 {
            self.sbc_zeropage();
        } else if mode == 2 {
            self.sbc_immediate();
        } else if mode == 3 {
            self.sbc_absolute();
        } else if mode == 4 {
            self.sbc_indirect_y();
        } else if mode == 5 {
            self.sbc_zeropage_x();
        } else if mode == 6 {
            self.sbc_absolute_y();
        } else {
            self.sbc_absolute_x();
        }
    }

    /// The opcodes whose low bits are 10: shifts, rotates, increments, and the
    /// instructions on the X register.
    fn dispatch_modify_group(&mut self, code: u8) -> (ok: bool)
        requires
            code % 4 == 2,
        ensures
            ok == (decode(code) is Some),
            final(self)@ == (match decode(code) {
                Some(instr) => old(self)@.perform(instr),
                None => old(self)@,
            }),
    {
        match code {
            0x06 => {
                self.asl_zeropage();
                true
            },
            0x0a => {
                self.asl_accumulator();
                true
            },
            0x0e => {
                self.asl_absolute();
                true
            },
            0x16 => {
                self.asl_zeropage_x();
                true
            },
            0x1e => {
                self.asl_absolute_x();
                true
            },
            0x26 => {
                self.rol_zeropage();
                true
            },
            0x2a => {
                self.rol_accumulator();
                true
            },
            0x2e => {
                self.rol_absolute();
                true
            },
            0x36 => {
                self.rol_zeropage_x();
                true
            },
            0x3e => {
                self.rol_absolute_x();
                true
            },
            0x46 => {
                self.lsr_zeropage();
                true
            },
            0x4a => {
                self.lsr_accumulator();
                true
            },
            0x4e => {
                self.lsr_absolute();
                true
            },
            0x56 => {
                self.lsr_zeropage_x();
                true
            },
            0x5a => {
                self.phy();
                true
            },
            0x5e => {
                self.lsr_absolute_x();
                true
            },
            0x66 => {
                self.ror_zeropage();
                true
            },
            0x6a => {
                self.ror_accumulator();
                true
            },
            0x6e => {
                self.ror_absolute();
                true
            },
            0x76 => {
                self.ror_zeropage_x();
                true
            },
            0x7a => {
                self.ply();
                true
            },
            0x7e => {
                self.ror_absolute_x();
                true
            },
            0x86 => {
                self.stx_zeropage();
                true
            },
            0x8a => {
                self.txa();
                true
            },
            0x8e => {
                self.stx_absolute();
                true
            },
            0x96 => {
                self.stx_zeropage_y();
                true
            },
            0x9a => {
                self.txs();
                true
            },
            0xa2 => {
                self.ldx_immediate();
                true
            },
            0xa6 => {
                self.ldx_zeropage();
                true
            },
            0xaa => {
                self.tax();
                true
            },
            0xae => {
                self.ldx_absolute();
                true
            },
            0xb6 => {
                self.ldx_zeropage_y();
                true
            },
            0xba => {
                self.tsx();
                true
            },
            0xbe => {
                self.ldx_absolute_y();
                true
            },
            0xc6 => {
                self.dec_zeropage();
                true
            },
            0xca => {
                self.dex();
                true
            },
            0xce => {
                self.dec_absolute();
                true
            },
            0xd6 => {
                self.dec_zeropage_x();
                true
            },
            0xda => {
                self.phx();
                true
            },
            0xde => {
                self.dec_absolute_x();
                true
            },
            0xe6 => {
                self.inc_zeropage();
                true
            },
            0xea => {
                self.nop();
                true
            },
            0xee => {
                self.inc_absolute();
                true
            },
            0xf6 => {
                self.inc_zeropage_x();
                true
            },
            0xfa => {
                self.plx();
                true
            },
            0xfe => {
                self.inc_absolute_x();
                true
            },
            _ => false,
        }
    }

    /// Enters an instruction address into the trace, dropping the oldest.
    fn record_trace(&mut self, address: u16)
        ensures
            final(self)@ == (CpuState {
                trace: old(self)@.trace.drop_first().push(address),
                ..old(self)@
            }),
    {
        let before = self.trace;
        let mut trace = self.trace;
        let mut i: usize = 0;
        while i < 9
            invariant
                i <= 9,
                forall|k: int| 0 <= k < i ==> trace@[k] == before@[k + 1],
                forall|k: int| i <= k < 10 ==> trace@[k] == before@[k],
            decreases 9 - i,
        {
            trace[i] = trace[i + 1];
            i = i + 1;
        }
        trace[9] = address;
        self.trace = trace;
        assert(self.trace@ =~= before@.drop_first().push(address));
    }

    /// Compares `a` with `b` as `a - b` without storing the difference:
    /// carry is set exactly when `a` is at least `b`, zero exactly when they
    /// are equal, and negative from bit 7 of the difference modulo 256.
    /// Nothing else changes.
    pub fn compare(&mut self, a: u8, b: u8)
        ensures
            final(self)@ == old(self)@.compared(a, b),
            final(self).carry_flag == (a >= b),
            final(self).zero_flag == (a == b),
            final(self).negative_flag == ((a - b) % 256 >= 128),
            final(self).negative_flag == (a.wrapping_sub(b) & 0x80 != 0),
            final(self).a == old(self).a,
            final(self).x == old(self).x,
            final(self).y == old(self).y,
            final(self).overflow_flag == old(self).overflow_flag,
    {
        let result = a.wrapping_sub(b);
        proof {
            lemma_end_bits(result);
        }
        self.carry_flag = a >= b;
        self.zero_flag = a == b;
        self.negative_flag = (result & 0x80) == 0x80;
    }

    /// Sets zero exactly when `value` is zero and negative from its bit 7;
    /// carry and overflow are not touched.
    pub fn set_flags(&mut self, value: u8)
        ensures
            final(self)@ == old(self)@.with_nz(value),
            final(self).zero_flag == (value == 0),
            final(self).negative_flag == (value >= 128),
            final(self).carry_flag == old(self).carry_flag,
            final(self).overflow_flag == old(self).overflow_flag,
    {
        proof {
            lemma_end_bits(value);
        }
        self.zero_flag = value == 0;
        self.negative_flag = value & 0x80 != 0;
    }

    /// Reads the little-endian word at `address`.
    fn get_address_at_address(&mut self, address: u16) -> (target: u16)
        ensures
            (target, final(self)@) == old(self)@.load_word(address),
    {
        let low = self.memory.read(address);
        let high = self.memory.read(address.wrapping_add(1));
        proof {
            lemma_word(low, high);
        }
        ((high as u16) << 8) | (low as u16)
    }

    /// Reads the little-endian word at `pointer` in page zero; the cell
    /// after 0xFF is 0x00.
    fn get_zero_page_address_at(&mut self, pointer: u8) -> (target: u16)
        ensures
            (target, final(self)@) == old(self)@.load_zero_page_word(pointer),
    {
        let low = self.memory.read(pointer as u16);
        let high = self.memory.read(pointer.wrapping_add(1) as u16);
        proof {
            lemma_word(low, high);
        }
        ((high as u16) << 8) | (low as u16)
    }

    /// Absolute: the word at the program counter.
    fn get_absolute_address(&mut self) -> (address: u16)
        ensures
            (address, final(self)@) == old(self)@.resolve(Mode::Absolute),
    {
        self.get_address_at_address(self.pc)
    }

    /// Relative: the offset byte at the program counter.
    fn get_relative(&mut self) -> (offset: u8)
        ensures
            (offset, final(self)@) == old(self)@.load(old(self)@.pc),
    {
        self.memory.read(self.pc)
    }

    /// Absolute,X: the word at the program counter plus X, modulo 65536.
    fn get_absolute_address_x(&mut self) -> (address: u16)
        ensures
            (address, final(self)@) == old(self)@.resolve(Mode::AbsoluteX),
    {
        self.get_absolute_address().wrapping_add(self.x as u16)
    }

    /// Absolute,Y: the word at the program counter plus Y, modulo 65536.
    fn get_absolute_address_y(&mut self) -> (address: u16)
        ensures
            (address, final(self)@) == old(self)@.resolve(Mode::AbsoluteY),
    {
        self.get_absolute_address().wrapping_add(self.y as u16)
    }

    /// Zero page: the byte at the program counter.
    fn get_zeropage(&mut self) -> (address: u16)
        ensures
            (address, final(self)@) == old(self)@.resolve(Mode::ZeroPage),
    {
        self.memory.read(self.pc) as u16
    }

    /// Zero page,X: the byte at the program counter plus X, modulo 256.
    fn get_zeropage_x(&mut self) -> (address: u16)
        ensures
            (address, final(self)@) == old(self)@.resolve(Mode::ZeroPageX),
            address < 256,
    {
        self.memory.read(self.pc).wrapping_add(self.x) as u16
    }

    /// Zero page,Y: the byte at the program counter plus Y, modulo 256.
    fn get_zeropage_y(&mut self) -> (address: u16)
        ensures
            (address, final(self)@) == old(self)@.resolve(Mode::ZeroPageY),
            address < 256,
    {
        self.memory.read(self.pc).wrapping_add(self.y) as u16
    }

    /// Immediate: the byte at the program counter.
    fn get_immediate(&mut self) -> (value: u8)
        ensures
            (value, final(self)@) == old(self)@.load(old(self)@.pc),
    {
        self.memory.read(self.pc)
    }

    /// (Indirect,X): the word in page zero at the operand plus X, modulo
    /// 256.
    fn get_indirect_x(&mut self) -> (address: u16)
        ensures
            (address, final(self)@) == old(self)@.resolve(Mode::IndirectX),
    {
        let pointer = self.memory.read(self.pc).wrapping_add(self.x);
        self.get_zero_page_address_at(pointer)
    }

    /// (Indirect),Y: the word in page zero at the operand, plus Y, modulo
    /// 65536.
    fn get_indirect_y(&mut self) -> (address: u16)
        ensures
            (address, final(self)@) == old(self)@.resolve(Mode::IndirectY),
    {
        let pointer = self.memory.read(self.pc);
        let base = self.get_zero_page_address_at(pointer);
        base.wrapping_add(self.y as u16)
    }

    /// (Indirect): the word stored where the word at the program counter
    /// points.
    fn get_indirect(&mut self) -> (address: u16)
        ensures
            final(self)@ == (CpuState { pc: old(self)@.pc, ..old(self)@.jump_indirect() }),
            address == old(self)@.jump_indirect().pc,
    {
        let pointer = self.get_absolute_address();
        self.get_address_at_address(pointer)
    }

    /// Packs the flags into the status byte, with bit 5 set.
    fn get_status_register(&self) -> (sr: u8)
        ensures
            sr == status_byte(self@.flags),
    {
        let mut sr: u8 = 0x20;
        if self.carry_flag {
            sr = sr + 1;
        }
        if self.zero_flag {
            sr = sr + 2;
        }
        if self.interrupt_flag {
            sr = sr + 4;
        }
        if self.decimal_flag {
            sr = sr + 8;
        }
        if self.break_flag {
            sr = sr + 16;
        }
        if self.overflow_flag {
            sr = sr + 64;
        }
        if self.negative_flag {
            sr = sr + 128;
        }
        sr
    }

    /// Unpacks the flags from a status byte.
    fn set_status_register(&mut self, value: u8)
        ensures
            final(self)@ == (CpuState { flags: flags_of(value), ..old(self)@ }),
    {
        proof {
            lemma_status_bits(value);
        }
        self.negative_flag = value & 0x80 != 0;
        self.overflow_flag = value & 0x40 != 0;
        self.break_flag = value & 0x10 != 0;
        self.decimal_flag = value & 0x08 != 0;
        self.interrupt_flag = value & 0x04 != 0;
        self.zero_flag = value & 0x02 != 0;
        self.carry_flag = value & 0x01 != 0;
    }

    /// Pushes a byte: writes it at 0x0100 plus the stack pointer, then
    /// moves the stack pointer down by one, modulo 256.
    pub fn push_stack(&mut self, value: u8)
        ensures
            final(self)@ == old(self)@.push(value),
            final(self).sp == old(self).sp.wrapping_sub(1),
            final(self)@.mem == old(self)@.mem.after_write(stack_address(old(self).sp), value),
    {
        self.memory.write(0x0100 + self.sp as u16, value);
        self.sp = self.sp.wrapping_sub(1);
    }

    /// Pulls a byte: moves the stack pointer up by one, modulo 256, then
    /// reads at 0x0100 plus the stack pointer. The memory is unchanged.
    pub fn pop_stack(&mut self) -> (value: u8)
        ensures
            (value, final(self)@) == old(self)@.pull(),
            final(self).sp == old(self).sp.wrapping_add(1),
            value == old(self)@.mem.cells[stack_address(final(self).sp) as int].value,
            final(self)@.mem == old(self)@.mem,
    {
        self.sp = self.sp.wrapping_add(1);
        self.memory.read(0x0100 + self.sp as u16)
    }

    /// Takes a branch: steps over the offset byte and adds the offset as a
    /// signed number.
    fn perform_relative_address(&mut self, offset: u8)
        ensures
            final(self)@ == (CpuState {
                pc: branch_target(old(self)@.pc.wrapping_add(1), offset),
                ..old(self)@
            }),
    {
        self.pc = self.pc.wrapping_add(1);
        let t: u16 = offset as u16;
        let mut address = self.pc.wrapping_add(t);
        proof {
            lemma_end_bits(offset);
            lemma_branch_target(self.pc, offset);
        }
        if offset & 0x80 != 0 {
            address = self.pc.wrapping_sub(0x100 - t);
        }
        self.pc = address;
    }

    /// Adds `n2` and the carry to the accumulator, in decimal when the
    /// decimal flag is set and in binary otherwise. In binary the
    /// accumulator takes the low byte of the nine-bit sum, carry is set
    /// exactly when the sum exceeds 255, and overflow exactly when both
    /// operands have one sign and the result the other; zero and negative
    /// follow the result in either mode.
    pub fn adc(&mut self, n2: u8)
        ensures
            final(self)@ == old(self)@.added(n2),
            !old(self).decimal_flag ==> final(self).a == (old(self).a + n2 + bit(
                old(self).carry_flag,
            )) % 256,
            !old(self).decimal_flag ==> final(self).carry_flag == (old(self).a + n2 + bit(
                old(self).carry_flag,
            ) > 255),
            !old(self).decimal_flag ==> final(self).overflow_flag == add_overflows(
                old(self).a,
                n2,
                final(self).a,
            ),
            final(self).overflow_flag == ((old(self).a ^ n2) & 0x80 == 0 && (old(self).a
                ^ final(self).a) & 0x80 != 0),
            final(self).zero_flag == (final(self).a == 0),
            final(self).negative_flag == (final(self).a >= 128),
            final(self).negative_flag == (final(self).a & 0x80 != 0),
    {
        if self.decimal_flag {
            self.adc_decimal(n2);
        } else {
            self.adc_binary(n2);
        }
        proof {
            lemma_sign_rules(old(self).a, n2, self.a);
            lemma_end_bits(self.a);
        }
    }

    /// Adds `n2` and the carry to the accumulator in binary, whatever the
    /// decimal flag says.
    fn adc_binary(&mut self, n2: u8)
        ensures
            final(self)@ == old(self)@.with_result(
                add_binary(old(self).a, n2, old(self).carry_flag),
            ),
    {
        let c: u16 = if self.carry_flag {
            1
        } else {
            0
        };
        let total: u16 = self.a as u16 + n2 as u16 + c;
        let operand0 = self.a & 0x80;
        let operand1 = n2 & 0x80;
        let result = total & 0x80;
        proof {
            lemma_end_bits(self.a);
            lemma_end_bits(n2);
            lemma_sum_bits(total);
        }
        self.carry_flag = total > 255;
        if operand0 == 0 && operand1 == 0 && result != 0 {
            self.overflow_flag = true;
        } else if operand0 != 0 && operand1 != 0 && result == 0 {
            self.overflow_flag = true;
        } else {
            self.overflow_flag = false;
        }
        self.a = (total & 0xFF) as u8;
        self.set_flags(self.a);
    }

    /// Adds `s` and the carry to the accumulator: digit by digit when the
    /// decimal flag is set, in binary otherwise. In decimal, carry is the
    /// decimal carry, and zero, negative and overflow follow the decimal
    /// result.
    pub fn adc_decimal(&mut self, s: u8)
        ensures
            final(self)@ == old(self)@.added(s),
            old(self).decimal_flag ==> final(self)@ == old(self)@.with_result(
                add_decimal(old(self).a, s, old(self).carry_flag),
            ),
            !old(self).decimal_flag ==> final(self)@ == old(self)@.with_result(
                add_binary(old(self).a, s, old(self).carry_flag),
            ),
    {
        if !self.decimal_flag {
            self.adc_binary(s);
            return ;
        }
        let a = self.a;
        proof {
            lemma_nibbles(a);
            lemma_nibbles(s);
        }
        let (al, low_carry) = add_decimal_digit(a & 15, s & 15, self.carry_flag);
        let (ah, carry_out) = add_decimal_digit(a >> 4, s >> 4, low_carry);
        let value: u8 = (ah << 4) | al;
        proof {
            lemma_join_nibbles(ah, al);
            lemma_end_bits(a);
            lemma_end_bits(s);
            lemma_end_bits(value);
        }
        let operand0 = a & 0x80;
        let operand1 = s & 0x80;
        let result = value & 0x80;
        self.carry_flag = carry_out;
        self.overflow_flag = (operand0 == 0 && operand1 == 0 && result != 0) || (operand0 != 0
            && operand1 != 0 && result == 0);
        self.a = value;
        self.set_flags(value);
    }

    /// Subtracts `value` and the borrow from the accumulator, in decimal
    /// when the decimal flag is set and in binary otherwise. In binary the
    /// accumulator takes `A - value - (1 - carry)` modulo 256, carry is set
    /// exactly when no borrow occurred, and overflow exactly when the
    /// operands differ in sign and the result has the sign of `value`; zero
    /// and negative follow the result in either mode.
    pub fn sbc(&mut self, value: u8)
        ensures
            final(self)@ == old(self)@.subtracted(value),
            !old(self).decimal_flag ==> final(self).a == (old(self).a - value - (1 - bit(
                old(self).carry_flag,
            ))) % 256,
            !old(self).decimal_flag ==> final(self).carry_flag == (old(self).a - value - (1
                - bit(old(self).carry_flag)) >= 0),
            !old(self).decimal_flag ==> final(self).overflow_flag == sub_overflows(
                old(self).a,
                value,
                final(self).a,
            ),
            !old(self).decimal_flag ==> final(self).a == old(self).a.wrapping_sub(
                value,
            ).wrapping_sub(
                if old(self).carry_flag {
                    0u8
                } else {
                    1u8
                },
            ),
            final(self).overflow_flag == ((old(self).a ^ value) & 0x80 != 0 && (old(self).a
                ^ final(self).a) & 0x80 != 0),
            final(self).zero_flag == (final(self).a == 0),
            final(self).negative_flag == (final(self).a >= 128),
            final(self).negative_flag == (final(self).a & 0x80 != 0),
    {
        if self.decimal_flag {
            self.subtract_with_carry_decimal(value);
        } else {
            self.sbc_binary(value);
        }
        proof {
            lemma_sign_rules(old(self).a, value, self.a);
            lemma_end_bits(self.a);
        }
    }

    /// Subtracts `value` and the borrow from the accumulator in binary,
    /// whatever the decimal flag says.
    fn sbc_binary(&mut self, value: u8)
        ensures
            final(self)@ == old(self)@.with_result(
                sub_binary(old(self).a, value, old(self).carry_flag),
            ),
    {
        let a = self.a;
        let c: u8 = if self.carry_flag {
            0
        } else {
            1
        };
        let result = a.wrapping_sub(value).wrapping_sub(c);
        proof {
            lemma_end_bits(a);
            lemma_end_bits(value);
            lemma_end_bits(result);
        }
        self.carry_flag = a as u16 >= value as u16 + c as u16;
        let op0 = a & 0x80;
        let op1 = value & 0x80;
        let r = result & 0x80;
        if op0 == 0 && op1 != 0 && r != 0 {
            self.overflow_flag = true;
        } else if op0 != 0 && op1 == 0 && r == 0 {
            self.overflow_flag = true;
        } else {
            self.overflow_flag = false;
        }
        self.a = result;
        self.set_flags(result);
    }

    /// Subtracts `value` and the borrow from the accumulator: digit by
    /// digit when the decimal flag is set, in binary otherwise. Carry is
    /// clear exactly when the subtraction borrowed; zero, negative and
    /// overflow follow the result.
    pub fn subtract_with_carry_decimal(&mut self, value: u8)
        ensures
            final(self)@ == old(self)@.subtracted(value),
            old(self).decimal_flag ==> final(self)@ == old(self)@.with_result(
                sub_decimal(old(self).a, value, old(self).carry_flag),
            ),
            !old(self).decimal_flag ==> final(self)@ == old(self)@.with_result(
                sub_binary(old(self).a, value, old(self).carry_flag),
            ),
            !old(self).decimal_flag ==> final(self).a == (old(self).a - value - (1 - bit(
                old(self).carry_flag,
            ))) % 256,
            !old(self).decimal_flag ==> final(self).carry_flag == (old(self).a - value - (1
                - bit(old(self).carry_flag)) >= 0),
            !old(self).decimal_flag ==> final(self).overflow_flag == sub_overflows(
                old(self).a,
                value,
                final(self).a,
            ),
            final(self).zero_flag == (final(self).a == 0),
            final(self).negative_flag == (final(self).a >= 128),
    {
        if !self.decimal_flag {
            self.sbc_binary(value);
            return ;
        }
        let register_a = self.a;
        proof {
            lemma_nibbles(register_a);
            lemma_nibbles(value);
        }
        let (bcd_low, low_carry) = sub_decimal_digit(
            register_a & 15,
            value & 15,
            !self.carry_flag,
        );
        let (bcd_high, high_carry) = sub_decimal_digit(register_a >> 4, value >> 4, low_carry);
        let total: u8 = (bcd_high << 4) | bcd_low;
        proof {
            lemma_join_nibbles(bcd_high, bcd_low);
            lemma_end_bits(register_a);
            lemma_end_bits(value);
            lemma_end_bits(total);
        }
        self.carry_flag = !high_carry;
        let operand0 = register_a & 0x80;
        let operand1 = value & 0x80;
        let result = total & 0x80;
        if operand0 == 0 && operand1 != 0 && result != 0 {
            self.overflow_flag = true;
        } else if operand0 != 0 && operand1 == 0 && result == 0 {
            self.overflow_flag = true;
        } else {
            self.overflow_flag = false;
        }
        self.a = total;
        self.set_flags(self.a);
    }
}

impl Cpu6502 {
    /// BRK (0x00).
    fn brk(&mut self)
        ensures
            final(self)@ == old(self)@.brk_instr(),
    {
        self.pc = self.pc.wrapping_sub(1);
        self.break_flag = true;
        proof {
            lemma_split(self.pc);
        }
        let h: u8 = (self.pc >> 8) as u8;
        self.push_stack(h);
        let l: u8 = (self.pc & 0xff) as u8;
        self.push_stack(l);
        let sr: u8 = self.get_status_register();
        self.push_stack(sr);
    }

    /// ORA (indirect,X) (0x01).
    fn ora_indirect_x(&mut self)
        ensures
            final(self)@ == old(self)@.read_instr(ReadOp::Ora, Mode::IndirectX),
    {
        let address: u16 = self.get_indirect_x();
        let value: u8 = self.memory.read(address);
        self.a = self.a | value;
        self.set_flags(self.a);
        self.pc = self.pc.wrapping_add(1);
    }

    /// ORA zero page (0x05).
    fn ora_zeropage(&mut self)
        ensures
            final(self)@ == old(self)@.read_instr(ReadOp::Ora, Mode::ZeroPage),
    {
        let address: u16 = self.get_zeropage();
        let value: u8 = self.memory.read(address);
        self.a = self.a | value;
        self.set_flags(self.a);
        self.pc = self.pc.wrapping_add(1);
    }

    /// ASL zero page (0x06).
    fn asl_zeropage(&mut self)
        ensures
            final(self)@ == old(self)@.modify_instr(ModifyOp::Asl, Mode::ZeroPage),
    {
        let address: u16 = self.get_zeropage();
        let value: u8 = self.memory.read(address);
        proof {
            lemma_end_bits(value);
            lemma_shifts(value);
        }
        self.carry_flag = (value & 128) == 128;
        let result: u8 = value << 1;
        self.memory.write(address, result);
        self.set_flags(result);
        self.pc = self.pc.wrapping_add(1);
    }

    /// PHP (0x08).
    fn php(&mut self)
        ensures
            final(self)@ == old(self)@.push_status(),
    {
        self.break_flag = true;
        self.unused_flag = true;
        let r: u8 = self.get_status_register();
        self.push_stack(r);
    }

    /// ORA immediate (0x09).
    fn ora_immediate(&mut self)
        ensures
            final(self)@ == old(self)@.read_instr(ReadOp::Ora, Mode::Immediate),
    {
        let value: u8 = self.get_immediate();
        self.a = self.a | value;
        self.set_flags(self.a);
        self.pc = self.pc.wrapping_add(1);
    }

    /// ASL accumulator (0x0a).
    fn asl_accumulator(&mut self)
        ensures
            final(self)@ == old(self)@.modify_accumulator(ModifyOp::Asl),
    {
        let value: u8 = self.a;
        proof {
            lemma_end_bits(value);
            lemma_shifts(value);
        }
        self.carry_flag = (value & 128) == 128;
        let result: u8 = value << 1;
        self.a = result;
        self.set_flags(self.a);
    }

    /// ORA absolute (0x0d).
    fn ora_absolute(&mut self)
        ensures
            final(self)@ == old(self)@.read_instr(ReadOp::Ora, Mode::Absolute),
    {
        let address: u16 = self.get_absolute_address();
        let value: u8 = self.memory.read(address);
        self.a = self.a | value;
        self.set_flags(self.a);
        self.pc = self.pc.wrapping_add(2);
    }

    /// ASL absolute (0x0e).
    fn asl_absolute(&mut self)
        ensures
            final(self)@ == old(self)@.modify_instr(ModifyOp::Asl, Mode::Absolute),
    {
        let address: u16 = self.get_absolute_address();
        let value: u8 = self.memory.read(address);
        proof {
            lemma_end_bits(value);
            lemma_shifts(value);
        }
        self.carry_flag = (value & 128) == 128;
        let result: u8 = value << 1;
        self.memory.write(address, result);
        self.set_flags(result);
        self.pc = self.pc.wrapping_add(2);
    }

    /// BPL relative (0x10).
    fn bpl(&mut self)
        ensures
            final(self)@ == old(self)@.branch_instr(Condition::Plus),
    {
        let offset: u8 = self.get_relative();
        if !self.negative_flag {
            self.perform_relative_address(offset);
        } else {
            self.pc = self.pc.wrapping_add(1);
        }
    }

    /// ORA (indirect),Y (0x11).
    fn ora_indirect_y(&mut self)
        ensures
            final(self)@ == old(self)@.read_instr(ReadOp::Ora, Mode::IndirectY),
    {
        let address: u16 = self.get_indirect_y();
        let value: u8 = self.memory.read(address);
        self.a = self.a | value;
        self.set_flags(self.a);
        self.pc = self.pc.wrapping_add(1);
    }

    /// ORA zero page,X (0x15).
    fn ora_zeropage_x(&mut self)
        ensures
            final(self)@ == old(self)@.read_instr(ReadOp::Ora, Mode::ZeroPageX),
    {
        let address: u16 = self.get_zeropage_x();
        let value: u8 = self.memory.read(address);
        self.a = self.a | value;
        self.set_flags(self.a);
        self.pc = self.pc.wrapping_add(1);
    }

    /// ASL zero page,X (0x16).
    fn asl_zeropage_x(&mut self)
        ensures
            final(self)@ == old(self)@.modify_instr(ModifyOp::Asl, Mode::ZeroPageX),
    {
        let address: u16 = self.get_zeropage_x();
        let value: u8 = self.memory.read(address);
        proof {
            lemma_end_bits(value);
            lemma_shifts(value);
        }
        self.carry_flag = (value & 128) == 128;
        let result: u8 = value << 1;
        self.memory.write(address, result);
        self.set_flags(result);
        self.pc = self.pc.wrapping_add(1);
    }

    /// CLC (0x18).
    fn clc(&mut self)
        ensures
            final(self)@ == old(self)@.implied_instr(ImpliedOp::Clc),
    {
        self.carry_flag = false;
    }

    /// ORA absolute,Y (0x19).
    fn ora_absolute_y(&mut self)
        ensures
            final(self)@ == old(self)@.read_instr(ReadOp::Ora, Mode::AbsoluteY),
    {
        let address: u16 = self.get_absolute_address_y();
        let value: u8 = self.memory.read(address);
        self.a = self.a | value;
        self.set_flags(self.a);
        self.pc = self.pc.wrapping_add(2);
    }

    /// ORA absolute,X (0x1d).
    fn ora_absolute_x(&mut self)
        ensures
            final(self)@ == old(self)@.read_instr(ReadOp::Ora, Mode::AbsoluteX),
    {
        let address: u16 = self.get_absolute_address_x();
        let value: u8 = self.memory.read(address);
        self.a = self.a | value;
        self.set_flags(self.a);
        self.pc = self.pc.wrapping_add(2);
    }

    /// ASL absolute,X (0x1e).
    fn asl_absolute_x(&mut self)
        ensures
            final(self)@ == old(self)@.modify_instr(ModifyOp::Asl, Mode::AbsoluteX),
    {
        let address: u16 = self.get_absolute_address_x();
        let value: u8 = self.memory.read(address);
        proof {
            lemma_end_bits(value);
            lemma_shifts(value);
        }
        self.carry_flag = (value & 128) == 128;
        let result: u8 = value << 1;
        self.memory.write(address, result);
        self.set_flags(result);
        self.pc = self.pc.wrapping_add(2);
    }

    /// JSR absolute (0x20).
    fn jsr(&mut self)
        ensures
            final(self)@ == old(self)@.jsr_instr(),
    {
        let address: u16 = self.get_absolute_address();
        self.pc = self.pc.wrapping_add(1);
        proof {
            lemma_split(self.pc);
        }
        let h: u8 = (self.pc >> 8) as u8;
        self.push_stack(h);
        let l: u8 = (self.pc & 0xff) as u8;
        self.push_stack(l);
        self.pc = address;
    }

    /// AND (indirect,X) (0x21).
    fn and_indirect_x(&mut self)
        ensures
            final(self)@ == old(self)@.read_instr(ReadOp::And, Mode::IndirectX),
    {
        let address: u16 = self.get_indirect_x();
        let value: u8 = self.memory.read(address);
        self.a = self.a & value;
        self.set_flags(self.a);
        self.pc = self.pc.wrapping_add(1);
    }

    /// BIT zero page (0x24).
    fn bit_zeropage(&mut self)
        ensures
            final(self)@ == old(self)@.read_instr(ReadOp::Bit, Mode::ZeroPage),
    {
        let address: u16 = self.get_zeropage();
        let value: u8 = self.memory.read(address);
        proof {
            lemma_status_bits(value);
        }
        self.zero_flag = self.a & value == 0;
        self.negative_flag = value & 0x80 != 0;
        self.overflow_flag = value & 0x40 != 0;
        self.pc = self.pc.wrapping_add(1);
    }

    /// AND zero page (0x25).
    fn and_zeropage(&mut self)
        ensures
            final(self)@ == old(self)@.read_instr(ReadOp::And, Mode::ZeroPage),
    {
        let address: u16 = self.get_zeropage();
        let value: u8 = self.memory.read(address);
        self.a = self.a & value;
        self.set_flags(self.a);
        self.pc = self.pc.wrapping_add(1);
    }

    /// ROL zero page (0x26).
    fn rol_zeropage(&mut self)
        ensures
            final(self)@ == old(self)@.modify_instr(ModifyOp::Rol, Mode::ZeroPage),
    {
        let address: u16 = self.get_zeropage();
        let value: u8 = self.memory.read(address);
        proof {
            lemma_end_bits(value);
            lemma_shifts(value);
            lemma_rotate_left(value);
        }
        let carry: u8 = if self.carry_flag {
            1
        } else {
            0
        };
        self.carry_flag = value & 0x80 != 0;
        let result: u8 = (value << 1) | carry;
        self.memory.write(address, result);
        self.set_flags(result);
        self.pc = self.pc.wrapping_add(1);
    }

    /// PLP (0x28).
    fn plp(&mut self)
        ensures
            final(self)@ == old(self)@.pull_status(),
    {
        let value: u8 = self.pop_stack();
        self.set_status_register(value);
    }

    /// AND immediate (0x29).
    fn and_immediate(&mut self)
        ensures
            final(self)@ == old(self)@.read_instr(ReadOp::And, Mode::Immediate),
    {
        let value: u8 = self.get_immediate();
        self.a = self.a & value;
        self.set_flags(self.a);
        self.pc = self.pc.wrapping_add(1);
    }

    /// ROL accumulator (0x2a).
    fn rol_accumulator(&mut self)
        ensures
            final(self)@ == old(self)@.modify_accumulator(ModifyOp::Rol),
    {
        let value: u8 = self.a;
        proof {
            lemma_end_bits(value);
            lemma_shifts(value);
            lemma_rotate_left(value);
        }
        let carry: u8 = if self.carry_flag {
            1
        } else {
            0
        };
        self.carry_flag = value & 0x80 != 0;
        let result: u8 = (value << 1) | carry;
        self.a = result;
        self.set_flags(self.a);
    }

    /// BIT absolute (0x2c).
    fn bit_absolute(&mut self)
        ensures
            final(self)@ == old(self)@.read_instr(ReadOp::Bit, Mode::Absolute),
    {
        let address: u16 = self.get_absolute_address();
        let value: u8 = self.memory.read(address);
        proof {
            lemma_status_bits(value);
        }
        self.zero_flag = self.a & value == 0;
        self.negative_flag = value & 0x80 != 0;
        self.overflow_flag = value & 0x40 != 0;
        self.pc = self.pc.wrapping_add(2);
    }

    /// AND absolute (0x2d).
    fn and_absolute(&mut self)
        ensures
            final(self)@ == old(self)@.read_instr(ReadOp::And, Mode::Absolute),
    {
        let address: u16 = self.get_absolute_address();
        let value: u8 = self.memory.read(address);
        self.a = self.a & value;
        self.set_flags(self.a);
        self.pc = self.pc.wrapping_add(2);
    }

    /// ROL absolute (0x2e).
    fn rol_absolute(&mut self)
        ensures
            final(self)@ == old(self)@.modify_instr(ModifyOp::Rol, Mode::Absolute),
    {
        let address: u16 = self.get_absolute_address();
        let value: u8 = self.memory.read(address);
        proof {
            lemma_end_bits(value);
            lemma_shifts(value);
            lemma_rotate_left(value);
        }
        let carry: u8 = if self.carry_flag {
            1
        } else {
            0
        };
        self.carry_flag = value & 0x80 != 0;
        let result: u8 = (value << 1) | carry;
        self.memory.write(address, result);
        self.set_flags(result);
        self.pc = self.pc.wrapping_add(2);
    }

    /// BMI relative (0x30).
    fn bmi(&mut self)
        ensures
            final(self)@ == old(self)@.branch_instr(Condition::Minus),
    {
        let offset: u8 = self.get_relative();
        if self.negative_flag {
            self.perform_relative_address(offset);
        } else {
            self.pc = self.pc.wrapping_add(1);
        }
    }

    /// AND (indirect),Y (0x31).
    fn and_indirect_y(&mut self)
        ensures
            final(self)@ == old(self)@.read_instr(ReadOp::And, Mode::IndirectY),
    {
        let address: u16 = self.get_indirect_y();
        let value: u8 = self.memory.read(address);
        self.a = self.a & value;
        self.set_flags(self.a);
        self.pc = self.pc.wrapping_add(1);
    }

    /// AND zero page,X (0x35).
    fn and_zeropage_x(&mut self)
        ensures
            final(self)@ == old(self)@.read_instr(ReadOp::And, Mode::ZeroPageX),
    {
        let address: u16 = self.get_zeropage_x();
        let value: u8 = self.memory.read(address);
        self.a = self.a & value;
        self.set_flags(self.a);
        self.pc = self.pc.wrapping_add(1);
    }

    /// ROL zero page,X (0x36).
    fn rol_zeropage_x(&mut self)
        ensures
            final(self)@ == old(self)@.modify_instr(ModifyOp::Rol, Mode::ZeroPageX),
    {
        let address: u16 = self.get_zeropage_x();
        let value: u8 = self.memory.read(address);
        proof {
            lemma_end_bits(value);
            lemma_shifts(value);
            lemma_rotate_left(value);
        }
        let carry: u8 = if self.carry_flag {
            1
        } else {
            0
        };
        self.carry_flag = value & 0x80 != 0;
        let result: u8 = (value << 1) | carry;
        self.memory.write(address, result);
        self.set_flags(result);
        self.pc = self.pc.wrapping_add(1);
    }

    /// SEC (0x38).
    fn sec(&mut self)
        ensures
            final(self)@ == old(self)@.implied_instr(ImpliedOp::Sec),
    {
        self.carry_flag = true;
    }

    /// AND absolute,Y (0x39).
    fn and_absolute_y(&mut self)
        ensures
            final(self)@ == old(self)@.read_instr(ReadOp::And, Mode::AbsoluteY),
    {
        let address: u16 = self.get_absolute_address_y();
        let value: u8 = self.memory.read(address);
        self.a = self.a & value;
        self.set_flags(self.a);
        self.pc = self.pc.wrapping_add(2);
    }

    /// AND absolute,X (0x3d).
    fn and_absolute_x(&mut self)
        ensures
            final(self)@ == old(self)@.read_instr(ReadOp::And, Mode::AbsoluteX),
    {
        let address: u16 = self.get_absolute_address_x();
        let value: u8 = self.memory.read(address);
        self.a = self.a & value;
        self.set_flags(self.a);
        self.pc = self.pc.wrapping_add(2);
    }

    /// ROL absolute,X (0x3e).
    fn rol_absolute_x(&mut self)
        ensures
            final(self)@ == old(self)@.modify_instr(ModifyOp::Rol, Mode::AbsoluteX),
    {
        let address: u16 = self.get_absolute_address_x();
        let value: u8 = self.memory.read(address);
        proof {
            lemma_end_bits(value);
            lemma_shifts(value);
            lemma_rotate_left(value);
        }
        let carry: u8 = if self.carry_flag {
            1
        } else {
            0
        };
        self.carry_flag = value & 0x80 != 0;
        let result: u8 = (value << 1) | carry;
        self.memory.write(address, result);
        self.set_flags(result);
        self.pc = self.pc.wrapping_add(2);
    }

    /// RTI (0x40).
    fn rti(&mut self)
        ensures
            final(self)@ == old(self)@.rti_instr(),
    {
        let value: u8 = self.pop_stack();
        self.set_status_register(value);
        let low: u8 = self.pop_stack();
        let high: u8 = self.pop_stack();
        proof {
            lemma_word(low, high);
        }
        self.pc = ((high as u16) << 8) | (low as u16);
    }

    /// EOR (indirect,X) (0x41).
    fn eor_indirect_x(&mut self)
        ensures
            final(self)@ == old(self)@.read_instr(ReadOp::Eor, Mode::IndirectX),
    {
        let address: u16 = self.get_indirect_x();
        let value: u8 = self.memory.read(address);
        self.a = self.a ^ value;
        self.set_flags(self.a);
        self.pc = self.pc.wrapping_add(1);
    }

    /// EOR zero page (0x45).
    fn eor_zeropage(&mut self)
        ensures
            final(self)@ == old(self)@.read_instr(ReadOp::Eor, Mode::ZeroPage),
    {
        let address: u16 = self.get_zeropage();
        let value: u8 = self.memory.read(address);
        self.a = self.a ^ value;
        self.set_flags(self.a);
        self.pc = self.pc.wrapping_add(1);
    }

    /// LSR zero page (0x46).
    fn lsr_zeropage(&mut self)
        ensures
            final(self)@ == old(self)@.modify_instr(ModifyOp::Lsr, Mode::ZeroPage),
    {
        let address: u16 = self.get_zeropage();
        let value: u8 = self.memory.read(address);
        proof {
            lemma_end_bits(value);
            lemma_shifts(value);
        }
        self.carry_flag = value & 0x01 != 0;
        let result: u8 = value >> 1;
        self.memory.write(address, result);
        self.set_flags(result);
        self.pc = self.pc.wrapping_add(1);
    }

    /// PHA (0x48).
    fn pha(&mut self)
        ensures
            final(self)@ == old(self)@.push_instr(Register::A),
    {
        self.push_stack(self.a);
    }

    /// EOR immediate (0x49).
    fn eor_immediate(&mut self)
        ensures
            final(self)@ == old(self)@.read_instr(ReadOp::Eor, Mode::Immediate),
    {
        let value: u8 = self.get_immediate();
        self.a = self.a ^ value;
        self.set_flags(self.a);
        self.pc = self.pc.wrapping_add(1);
    }

    /// LSR accumulator (0x4a).
    fn lsr_accumulator(&mut self)
        ensures
            final(self)@ == old(self)@.modify_accumulator(ModifyOp::Lsr),
    {
        let value: u8 = self.a;
        proof {
            lemma_end_bits(value);
            lemma_shifts(value);
        }
        self.carry_flag = value & 0x01 != 0;
        let result: u8 = value >> 1;
        self.a = result;
        self.set_flags(self.a);
    }

    /// JMP absolute (0x4c).
    fn jmp_absolute(&mut self)
        ensures
            final(self)@ == old(self)@.jump_absolute(),
    {
        let address: u16 = self.get_address_at_address(self.pc);
        self.pc = address;
    }

    /// EOR absolute (0x4d).
    fn eor_absolute(&mut self)
        ensures
            final(self)@ == old(self)@.read_instr(ReadOp::Eor, Mode::Absolute),
    {
        let address: u16 = self.get_absolute_address();
        let value: u8 = self.memory.read(address);
        self.a = self.a ^ value;
        self.set_flags(self.a);
        self.pc = self.pc.wrapping_add(2);
    }

    /// LSR absolute (0x4e).
    fn lsr_absolute(&mut self)
        ensures
            final(self)@ == old(self)@.modify_instr(ModifyOp::Lsr, Mode::Absolute),
    {
        let address: u16 = self.get_absolute_address();
        let value: u8 = self.memory.read(address);
        proof {
            lemma_end_bits(value);
            lemma_shifts(value);
        }
        self.carry_flag = value & 0x01 != 0;
        let result: u8 = value >> 1;
        self.memory.write(address, result);
        self.set_flags(result);
        self.pc = self.pc.wrapping_add(2);
    }

    /// BVC relative (0x50).
    fn bvc(&mut self)
        ensures
            final(self)@ == old(self)@.branch_instr(Condition::OverflowClear),
    {
        let offset: u8 = self.get_relative();
        if !self.overflow_flag {
            self.perform_relative_address(offset);
        } else {
            self.pc = self.pc.wrapping_add(1);
        }
    }

    /// EOR (indirect),Y (0x51).
    fn eor_indirect_y(&mut self)
        ensures
            final(self)@ == old(self)@.read_instr(ReadOp::Eor, Mode::IndirectY),
    {
        let address: u16 = self.get_indirect_y();
        let value: u8 = self.memory.read(address);
        self.a = self.a ^ value;
        self.set_flags(self.a);
        self.pc = self.pc.wrapping_add(1);
    }

    /// EOR zero page,X (0x55).
    fn eor_zeropage_x(&mut self)
        ensures
            final(self)@ == old(self)@.read_instr(ReadOp::Eor, Mode::ZeroPageX),
    {
        let address: u16 = self.get_zeropage_x();
        let value: u8 = self.memory.read(address);
        self.a = self.a ^ value;
        self.set_flags(self.a);
        self.pc = self.pc.wrapping_add(1);
    }

    /// LSR zero page,X (0x56).
    fn lsr_zeropage_x(&mut self)
        ensures
            final(self)@ == old(self)@.modify_instr(ModifyOp::Lsr, Mode::ZeroPageX),
    {
        let address: u16 = self.get_zeropage_x();
        let value: u8 = self.memory.read(address);
        proof {
            lemma_end_bits(value);
            lemma_shifts(value);
        }
        self.carry_flag = value & 0x01 != 0;
        let result: u8 = value >> 1;
        self.memory.write(address, result);
        self.set_flags(result);
        self.pc = self.pc.wrapping_add(1);
    }

    /// CLI (0x58).
    fn cli(&mut self)
        ensures
            final(self)@ == old(self)@.implied_instr(ImpliedOp::Cli),
    {
        self.interrupt_flag = false;
    }

    /// EOR absolute,Y (0x59).
    fn eor_absolute_y(&mut self)
        ensures
            final(self)@ == old(self)@.read_instr(ReadOp::Eor, Mode::AbsoluteY),
    {
        let address: u16 = self.get_absolute_address_y();
        let value: u8 = self.memory.read(address);
        self.a = self.a ^ value;
        self.set_flags(self.a);
        self.pc = self.pc.wrapping_add(2);
    }

    /// PHY (0x5a).
    fn phy(&mut self)
        ensures
            final(self)@ == old(self)@.push_instr(Register::Y),
    {
        self.push_stack(self.y);
    }

    /// EOR absolute,X (0x5d).
    fn eor_absolute_x(&mut self)
        ensures
            final(self)@ == old(self)@.read_instr(ReadOp::Eor, Mode::AbsoluteX),
    {
        let address: u16 = self.get_absolute_address_x();
        let value: u8 = self.memory.read(address);
        self.a = self.a ^ value;
        self.set_flags(self.a);
        self.pc = self.pc.wrapping_add(2);
    }

    /// LSR absolute,X (0x5e).
    fn lsr_absolute_x(&mut self)
        ensures
            final(self)@ == old(self)@.modify_instr(ModifyOp::Lsr, Mode::AbsoluteX),
    {
        let address: u16 = self.get_absolute_address_x();
        let value: u8 = self.memory.read(address);
        proof {
            lemma_end_bits(value);
            lemma_shifts(value);
        }
        self.carry_flag = value & 0x01 != 0;
        let result: u8 = value >> 1;
        self.memory.write(address, result);
        self.set_flags(result);
        self.pc = self.pc.wrapping_add(2);
    }

    /// RTS (0x60).
    fn rts(&mut self)
        ensures
            final(self)@ == old(self)@.rts_instr(),
    {
        let low: u8 = self.pop_stack();
        let high: u8 = self.pop_stack();
        proof {
            lemma_word(low, high);
        }
        let address: u16 = ((high as u16) << 8) | (low as u16);
        self.pc = address.wrapping_add(1);
    }

    /// ADC (indirect,X) (0x61).
    fn adc_indirect_x(&mut self)
        ensures
            final(self)@ == old(self)@.read_instr(ReadOp::Adc, Mode::IndirectX),
    {
        let address: u16 = self.get_indirect_x();
        let value: u8 = self.memory.read(address);
        self.adc(value);
        self.pc = self.pc.wrapping_add(1);
    }

    /// ADC zero page (0x65).
    fn adc_zeropage(&mut self)
        ensures
            final(self)@ == old(self)@.read_instr(ReadOp::Adc, Mode::ZeroPage),
    {
        let address: u16 = self.get_zeropage();
        let value: u8 = self.memory.read(address);
        self.adc(value);
        self.pc = self.pc.wrapping_add(1);
    }

    /// ROR zero page (0x66).
    fn ror_zeropage(&mut self)
        ensures
            final(self)@ == old(self)@.modify_instr(ModifyOp::Ror, Mode::ZeroPage),
    {
        let address: u16 = self.get_zeropage();
        let value: u8 = self.memory.read(address);
        proof {
            lemma_end_bits(value);
            lemma_shifts(value);
            lemma_rotate_right(value);
        }
        let carry: u8 = if self.carry_flag {
            0x80
        } else {
            0x00
        };
        self.carry_flag = value & 0x01 != 0;
        let result: u8 = (value >> 1) | carry;
        self.memory.write(address, result);
        self.set_flags(result);
        self.pc = self.pc.wrapping_add(1);
    }

    /// PLA (0x68).
    fn pla(&mut self)
        ensures
            final(self)@ == old(self)@.pull_instr(Register::A),
    {
        self.a = self.pop_stack();
        self.set_flags(self.a);
    }

    /// ADC immediate (0x69).
    fn adc_immediate(&mut self)
        ensures
            final(self)@ == old(self)@.read_instr(ReadOp::Adc, Mode::Immediate),
    {
        let value: u8 = self.get_immediate();
        self.adc(value);
        self.pc = self.pc.wrapping_add(1);
    }

    /// ROR accumulator (0x6a).
    fn ror_accumulator(&mut self)
        ensures
            final(self)@ == old(self)@.modify_accumulator(ModifyOp::Ror),
    {
        let value: u8 = self.a;
        proof {
            lemma_end_bits(value);
            lemma_shifts(value);
            lemma_rotate_right(value);
        }
        let carry: u8 = if self.carry_flag {
            0x80
        } else {
            0x00
        };
        self.carry_flag = value & 0x01 != 0;
        let result: u8 = (value >> 1) | carry;
        self.a = result;
        self.set_flags(self.a);
    }

    /// JMP (indirect) (0x6c).
    fn jmp_indirect(&mut self)
        ensures
            final(self)@ == old(self)@.jump_indirect(),
    {
        self.pc = self.get_indirect();
    }

    /// ADC absolute (0x6d).
    fn adc_absolute(&mut self)
        ensures
            final(self)@ == old(self)@.read_instr(ReadOp::Adc, Mode::Absolute),
    {
        let address: u16 = self.get_absolute_address();
        let value: u8 = self.memory.read(address);
        self.adc(value);
        self.pc = self.pc.wrapping_add(2);
    }

    /// ROR absolute (0x6e).
    fn ror_absolute(&mut self)
        ensures
            final(self)@ == old(self)@.modify_instr(ModifyOp::Ror, Mode::Absolute),
    {
        let address: u16 = self.get_absolute_address();
        let value: u8 = self.memory.read(address);
        proof {
            lemma_end_bits(value);
            lemma_shifts(value);
            lemma_rotate_right(value);
        }
        let carry: u8 = if self.carry_flag {
            0x80
        } else {
            0x00
        };
        self.carry_flag = value & 0x01 != 0;
        let result: u8 = (value >> 1) | carry;
        self.memory.write(address, result);
        self.set_flags(result);
        self.pc = self.pc.wrapping_add(2);
    }

    /// BVS relative (0x70).
    fn bvs(&mut self)
        ensures
            final(self)@ == old(self)@.branch_instr(Condition::OverflowSet),
    {
        let offset: u8 = self.get_relative();
        if self.overflow_flag {
            self.perform_relative_address(offset);
        } else {
            self.pc = self.pc.wrapping_add(1);
        }
    }

    /// ADC (indirect),Y (0x71).
    fn adc_indirect_y(&mut self)
        ensures
            final(self)@ == old(self)@.read_instr(ReadOp::Adc, Mode::IndirectY),
    {
        let address: u16 = self.get_indirect_y();
        let value: u8 = self.memory.read(address);
        self.adc(value);
        self.pc = self.pc.wrapping_add(1);
    }

    /// ADC zero page,X (0x75).
    fn adc_zeropage_x(&mut self)
        ensures
            final(self)@ == old(self)@.read_instr(ReadOp::Adc, Mode::ZeroPageX),
    {
        let address: u16 = self.get_zeropage_x();
        let value: u8 = self.memory.read(address);
        self.adc(value);
        self.pc = self.pc.wrapping_add(1);
    }

    /// ROR zero page,X (0x76).
    fn ror_zeropage_x(&mut self)
        ensures
            final(self)@ == old(self)@.modify_instr(ModifyOp::Ror, Mode::ZeroPageX),
    {
        let address: u16 = self.get_zeropage_x();
        let value: u8 = self.memory.read(address);
        proof {
            lemma_end_bits(value);
            lemma_shifts(value);
            lemma_rotate_right(value);
        }
        let carry: u8 = if self.carry_flag {
            0x80
        } else {
            0x00
        };
        self.carry_flag = value & 0x01 != 0;
        let result: u8 = (value >> 1) | carry;
        self.memory.write(address, result);
        self.set_flags(result);
        self.pc = self.pc.wrapping_add(1);
    }

    /// SEI (0x78).
    fn sei(&mut self)
        ensures
            final(self)@ == old(self)@.implied_instr(ImpliedOp::Sei),
    {
        self.interrupt_flag = true;
    }

    /// ADC absolute,Y (0x79).
    fn adc_absolute_y(&mut self)
        ensures
            final(self)@ == old(self)@.read_instr(ReadOp::Adc, Mode::AbsoluteY),
    {
        let address: u16 = self.get_absolute_address_y();
        let value: u8 = self.memory.read(address);
        self.adc(value);
        self.pc = self.pc.wrapping_add(2);
    }

    /// PLY (0x7a).
    fn ply(&mut self)
        ensures
            final(self)@ == old(self)@.pull_instr(Register::Y),
    {
        self.y = self.pop_stack();
        self.set_flags(self.y);
    }

    /// ADC absolute,X (0x7d).
    fn adc_absolute_x(&mut self)
        ensures
            final(self)@ == old(self)@.read_instr(ReadOp::Adc, Mode::AbsoluteX),
    {
        let address: u16 = self.get_absolute_address_x();
        let value: u8 = self.memory.read(address);
        self.adc(value);
        self.pc = self.pc.wrapping_add(2);
    }

    /// ROR absolute,X (0x7e).
    fn ror_absolute_x(&mut self)
        ensures
            final(self)@ == old(self)@.modify_instr(ModifyOp::Ror, Mode::AbsoluteX),
    {
        let address: u16 = self.get_absolute_address_x();
        let value: u8 = self.memory.read(address);
        proof {
            lemma_end_bits(value);
            lemma_shifts(value);
            lemma_rotate_right(value);
        }
        let carry: u8 = if self.carry_flag {
            0x80
        } else {
            0x00
        };
        self.carry_flag = value & 0x01 != 0;
        let result: u8 = (value >> 1) | carry;
        self.memory.write(address, result);
        self.set_flags(result);
        self.pc = self.pc.wrapping_add(2);
    }

    /// BRA relative (0x80).
    fn bra(&mut self)
        ensures
            final(self)@ == old(self)@.branch_instr(Condition::Always),
    {
        let offset: u8 = self.get_relative();
        self.perform_relative_address(offset);
    }

    /// STA (indirect,X) (0x81).
    fn sta_indirect_x(&mut self)
        ensures
            final(self)@ == old(self)@.store_instr(Register::A, Mode::IndirectX),
    {
        let address: u16 = self.get_indirect_x();
        self.memory.write(address, self.a);
        self.pc = self.pc.wrapping_add(1);
    }

    /// STY zero page (0x84).
    fn sty_zeropage(&mut self)
        ensures
            final(self)@ == old(self)@.store_instr(Register::Y, Mode::ZeroPage),
    {
        let address: u16 = self.get_zeropage();
        self.memory.write(address, self.y);
        self.pc = self.pc.wrapping_add(1);
    }

    /// STA zero page (0x85).
    fn sta_zeropage(&mut self)
        ensures
            final(self)@ == old(self)@.store_instr(Register::A, Mode::ZeroPage),
    {
        let address: u16 = self.get_zeropage();
        self.memory.write(address, self.a);
        self.pc = self.pc.wrapping_add(1);
    }

    /// STX zero page (0x86).
    fn stx_zeropage(&mut self)
        ensures
            final(self)@ == old(self)@.store_instr(Register::X, Mode::ZeroPage),
    {
        let address: u16 = self.get_zeropage();
        self.memory.write(address, self.x);
        self.pc = self.pc.wrapping_add(1);
    }

    /// DEY (0x88).
    fn dey(&mut self)
        ensures
            final(self)@ == old(self)@.implied_instr(ImpliedOp::Dey),
    {
        self.y = self.y.wrapping_sub(1);
        self.set_flags(self.y);
    }

    /// TXA (0x8a).
    fn txa(&mut self)
        ensures
            final(self)@ == old(self)@.implied_instr(ImpliedOp::Txa),
    {
        self.a = self.x;
        self.set_flags(self.a);
    }

    /// STY absolute (0x8c).
    fn sty_absolute(&mut self)
        ensures
            final(self)@ == old(self)@.store_instr(Register::Y, Mode::Absolute),
    {
        let address: u16 = self.get_absolute_address();
        self.memory.write(address, self.y);
        self.pc = self.pc.wrapping_add(2);
    }

    /// STA absolute (0x8d).
    fn sta_absolute(&mut self)
        ensures
            final(self)@ == old(self)@.store_instr(Register::A, Mode::Absolute),
    {
        let address: u16 = self.get_absolute_address();
        self.memory.write(address, self.a);
        self.pc = self.pc.wrapping_add(2);
    }

    /// STX absolute (0x8e).
    fn stx_absolute(&mut self)
        ensures
            final(self)@ == old(self)@.store_instr(Register::X, Mode::Absolute),
    {
        let address: u16 = self.get_absolute_address();
        self.memory.write(address, self.x);
        self.pc = self.pc.wrapping_add(2);
    }

    /// BCC relative (0x90).
    fn bcc(&mut self)
        ensures
            final(self)@ == old(self)@.branch_instr(Condition::CarryClear),
    {
        let offset: u8 = self.get_relative();
        if !self.carry_flag {
            self.perform_relative_address(offset);
        } else {
            self.pc = self.pc.wrapping_add(1);
        }
    }

    /// STA (indirect),Y (0x91).
    fn sta_indirect_y(&mut self)
        ensures
            final(self)@ == old(self)@.store_instr(Register::A, Mode::IndirectY),
    {
        let address: u16 = self.get_indirect_y();
        self.memory.write(address, self.a);
        self.pc = self.pc.wrapping_add(1);
    }

    /// STY zero page,X (0x94).
    fn sty_zeropage_x(&mut self)
        ensures
            final(self)@ == old(self)@.store_instr(Register::Y, Mode::ZeroPageX),
    {
        let address: u16 = self.get_zeropage_x();
        self.memory.write(address, self.y);
        self.pc = self.pc.wrapping_add(1);
    }

    /// STA zero page,X (0x95).
    fn sta_zeropage_x(&mut self)
        ensures
            final(self)@ == old(self)@.store_instr(Register::A, Mode::ZeroPageX),
    {
        let address: u16 = self.get_zeropage_x();
        self.memory.write(address, self.a);
        self.pc = self.pc.wrapping_add(1);
    }

    /// STX zero page,Y (0x96).
    fn stx_zeropage_y(&mut self)
        ensures
            final(self)@ == old(self)@.store_instr(Register::X, Mode::ZeroPageY),
    {
        let address: u16 = self.get_zeropage_y();
        self.memory.write(address, self.x);
        self.pc = self.pc.wrapping_add(1);
    }

    /// TYA (0x98).
    fn tya(&mut self)
        ensures
            final(self)@ == old(self)@.implied_instr(ImpliedOp::Tya),
    {
        self.a = self.y;
        self.set_flags(self.a);
    }

    /// STA absolute,Y (0x99).
    fn sta_absolute_y(&mut self)
        ensures
            final(self)@ == old(self)@.store_instr(Register::A, Mode::AbsoluteY),
    {
        let address: u16 = self.get_absolute_address_y();
        self.memory.write(address, self.a);
        self.pc = self.pc.wrapping_add(2);
    }

    /// TXS (0x9a).
    fn txs(&mut self)
        ensures
            final(self)@ == old(self)@.implied_instr(ImpliedOp::Txs),
    {
        self.sp = self.x;
    }

    /// STA absolute,X (0x9d).
    fn sta_absolute_x(&mut self)
        ensures
            final(self)@ == old(self)@.store_instr(Register::A, Mode::AbsoluteX),
    {
        let address: u16 = self.get_absolute_address_x();
        self.memory.write(address, self.a);
        self.pc = self.pc.wrapping_add(2);
    }

    /// LDY immediate (0xa0).
    fn ldy_immediate(&mut self)
        ensures
            final(self)@ == old(self)@.read_instr(ReadOp::Ldy, Mode::Immediate),
    {
        let value: u8 = self.get_immediate();
        self.y = value;
        self.set_flags(self.y);
        self.pc = self.pc.wrapping_add(1);
    }

    /// LDA (indirect,X) (0xa1).
    fn lda_indirect_x(&mut self)
        ensures
            final(self)@ == old(self)@.read_instr(ReadOp::Lda, Mode::IndirectX),
    {
        let address: u16 = self.get_indirect_x();
        let value: u8 = self.memory.read(address);
        self.a = value;
        self.set_flags(self.a);
        self.pc = self.pc.wrapping_add(1);
    }

    /// LDX immediate (0xa2).
    fn ldx_immediate(&mut self)
        ensures
            final(self)@ == old(self)@.read_instr(ReadOp::Ldx, Mode::Immediate),
    {
        let value: u8 = self.get_immediate();
        self.x = value;
        self.set_flags(self.x);
        self.pc = self.pc.wrapping_add(1);
    }

    /// LDY zero page (0xa4).
    fn ldy_zeropage(&mut self)
        ensures
            final(self)@ == old(self)@.read_instr(ReadOp::Ldy, Mode::ZeroPage),
    {
        let address: u16 = self.get_zeropage();
        let value: u8 = self.memory.read(address);
        self.y = value;
        self.set_flags(self.y);
        self.pc = self.pc.wrapping_add(1);
    }

    /// LDA zero page (0xa5).
    fn lda_zeropage(&mut self)
        ensures
            final(self)@ == old(self)@.read_instr(ReadOp::Lda, Mode::ZeroPage),
    {
        let address: u16 = self.get_zeropage();
        let value: u8 = self.memory.read(address);
        self.a = value;
        self.set_flags(self.a);
        self.pc = self.pc.wrapping_add(1);
    }

    /// LDX zero page (0xa6).
    fn ldx_zeropage(&mut self)
        ensures
            final(self)@ == old(self)@.read_instr(ReadOp::Ldx, Mode::ZeroPage),
    {
        let address: u16 = self.get_zeropage();
        let value: u8 = self.memory.read(address);
        self.x = value;
        self.set_flags(self.x);
        self.pc = self.pc.wrapping_add(1);
    }

    /// TAY (0xa8).
    fn tay(&mut self)
        ensures
            final(self)@ == old(self)@.implied_instr(ImpliedOp::Tay),
    {
        self.y = self.a;
        self.set_flags(self.y);
    }

    /// LDA immediate (0xa9).
    fn lda_immediate(&mut self)
        ensures
            final(self)@ == old(self)@.read_instr(ReadOp::Lda, Mode::Immediate),
    {
        let value: u8 = self.get_immediate();
        self.a = value;
        self.set_flags(self.a);
        self.pc = self.pc.wrapping_add(1);
    }

    /// TAX (0xaa).
    fn tax(&mut self)
        ensures
            final(self)@ == old(self)@.implied_instr(ImpliedOp::Tax),
    {
        self.x = self.a;
        self.set_flags(self.x);
    }

    /// LDY absolute (0xac).
    fn ldy_absolute(&mut self)
        ensures
            final(self)@ == old(self)@.read_instr(ReadOp::Ldy, Mode::Absolute),
    {
        let address: u16 = self.get_absolute_address();
        let value: u8 = self.memory.read(address);
        self.y = value;
        self.set_flags(self.y);
        self.pc = self.pc.wrapping_add(2);
    }

    /// LDA absolute (0xad).
    fn lda_absolute(&mut self)
        ensures
            final(self)@ == old(self)@.read_instr(ReadOp::Lda, Mode::Absolute),
    {
        let address: u16 = self.get_absolute_address();
        let value: u8 = self.memory.read(address);
        self.a = value;
        self.set_flags(self.a);
        self.pc = self.pc.wrapping_add(2);
    }

    /// LDX absolute (0xae).
    fn ldx_absolute(&mut self)
        ensures
            final(self)@ == old(self)@.read_instr(ReadOp::Ldx, Mode::Absolute),
    {
        let address: u16 = self.get_absolute_address();
        let value: u8 = self.memory.read(address);
        self.x = value;
        self.set_flags(self.x);
        self.pc = self.pc.wrapping_add(2);
    }

    /// BCS relative (0xb0).
    fn bcs(&mut self)
        ensures
            final(self)@ == old(self)@.branch_instr(Condition::CarrySet),
    {
        let offset: u8 = self.get_relative();
        if self.carry_flag {
            self.perform_relative_address(offset);
        } else {
            self.pc = self.pc.wrapping_add(1);
        }
    }

    /// LDA (indirect),Y (0xb1).
    fn lda_indirect_y(&mut self)
        ensures
            final(self)@ == old(self)@.read_instr(ReadOp::Lda, Mode::IndirectY),
    {
        let address: u16 = self.get_indirect_y();
        let value: u8 = self.memory.read(address);
        self.a = value;
        self.set_flags(self.a);
        self.pc = self.pc.wrapping_add(1);
    }

    /// LDY zero page,X (0xb4).
    fn ldy_zeropage_x(&mut self)
        ensures
            final(self)@ == old(self)@.read_instr(ReadOp::Ldy, Mode::ZeroPageX),
    {
        let address: u16 = self.get_zeropage_x();
        let value: u8 = self.memory.read(address);
        self.y = value;
        self.set_flags(self.y);
        self.pc = self.pc.wrapping_add(1);
    }

    /// LDA zero page,X (0xb5).
    fn lda_zeropage_x(&mut self)
        ensures
            final(self)@ == old(self)@.read_instr(ReadOp::Lda, Mode::ZeroPageX),
    {
        let address: u16 = self.get_zeropage_x();
        let value: u8 = self.memory.read(address);
        self.a = value;
        self.set_flags(self.a);
        self.pc = self.pc.wrapping_add(1);
    }

    /// LDX zero page,Y (0xb6).
    fn ldx_zeropage_y(&mut self)
        ensures
            final(self)@ == old(self)@.read_instr(ReadOp::Ldx, Mode::ZeroPageY),
    {
        let address: u16 = self.get_zeropage_y();
        let value: u8 = self.memory.read(address);
        self.x = value;
        self.set_flags(self.x);
        self.pc = self.pc.wrapping_add(1);
    }

    /// CLV (0xb8).
    fn clv(&mut self)
        ensures
            final(self)@ == old(self)@.implied_instr(ImpliedOp::Clv),
    {
        self.overflow_flag = false;
    }

    /// LDA absolute,Y (0xb9).
    fn lda_absolute_y(&mut self)
        ensures
            final(self)@ == old(self)@.read_instr(ReadOp::Lda, Mode::AbsoluteY),
    {
        let address: u16 = self.get_absolute_address_y();
        let value: u8 = self.memory.read(address);
        self.a = value;
        self.set_flags(self.a);
        self.pc = self.pc.wrapping_add(2);
    }

    /// TSX (0xba).
    fn tsx(&mut self)
        ensures
            final(self)@ == old(self)@.implied_instr(ImpliedOp::Tsx),
    {
        self.x = self.sp;
        self.set_flags(self.x);
    }

    /// LDY absolute,X (0xbc).
    fn ldy_absolute_x(&mut self)
        ensures
            final(self)@ == old(self)@.read_instr(ReadOp::Ldy, Mode::AbsoluteX),
    {
        let address: u16 = self.get_absolute_address_x();
        let value: u8 = self.memory.read(address);
        self.y = value;
        self.set_flags(self.y);
        self.pc = self.pc.wrapping_add(2);
    }

    /// LDA absolute,X (0xbd).
    fn lda_absolute_x(&mut self)
        ensures
            final(self)@ == old(self)@.read_instr(ReadOp::Lda, Mode::AbsoluteX),
    {
        let address: u16 = self.get_absolute_address_x();
        let value: u8 = self.memory.read(address);
        self.a = value;
        self.set_flags(self.a);
        self.pc = self.pc.wrapping_add(2);
    }

    /// LDX absolute,Y (0xbe).
    fn ldx_absolute_y(&mut self)
        ensures
            final(self)@ == old(self)@.read_instr(ReadOp::Ldx, Mode::AbsoluteY),
    {
        let address: u16 = self.get_absolute_address_y();
        let value: u8 = self.memory.read(address);
        self.x = value;
        self.set_flags(self.x);
        self.pc = self.pc.wrapping_add(2);
    }

    /// CPY immediate (0xc0).
    fn cpy_immediate(&mut self)
        ensures
            final(self)@ == old(self)@.read_instr(ReadOp::CompareY, Mode::Immediate),
    {
        let value: u8 = self.get_immediate();
        self.compare(self.y, value);
        self.pc = self.pc.wrapping_add(1);
    }

    /// CMP (indirect,X) (0xc1).
    fn cmp_indirect_x(&mut self)
        ensures
            final(self)@ == old(self)@.read_instr(ReadOp::CompareA, Mode::IndirectX),
    {
        let address: u16 = self.get_indirect_x();
        let value: u8 = self.memory.read(address);
        self.compare(self.a, value);
        self.pc = self.pc.wrapping_add(1);
    }

    /// CPY zero page (0xc4).
    fn cpy_zeropage(&mut self)
        ensures
            final(self)@ == old(self)@.read_instr(ReadOp::CompareY, Mode::ZeroPage),
    {
        let address: u16 = self.get_zeropage();
        let value: u8 = self.memory.read(address);
        self.compare(self.y, value);
        self.pc = self.pc.wrapping_add(1);
    }

    /// CMP zero page (0xc5).
    fn cmp_zeropage(&mut self)
        ensures
            final(self)@ == old(self)@.read_instr(ReadOp::CompareA, Mode::ZeroPage),
    {
        let address: u16 = self.get_zeropage();
        let value: u8 = self.memory.read(address);
        self.compare(self.a, value);
        self.pc = self.pc.wrapping_add(1);
    }

    /// DEC zero page (0xc6).
    fn dec_zeropage(&mut self)
        ensures
            final(self)@ == old(self)@.modify_instr(ModifyOp::Dec, Mode::ZeroPage),
    {
        let address: u16 = self.get_zeropage();
        let value: u8 = self.memory.read(address);
        let result: u8 = value.wrapping_sub(1);
        self.memory.write(address, result);
        self.set_flags(result);
        self.pc = self.pc.wrapping_add(1);
    }

    /// INY (0xc8).
    fn iny(&mut self)
        ensures
            final(self)@ == old(self)@.implied_instr(ImpliedOp::Iny),
    {
        self.y = self.y.wrapping_add(1);
        self.set_flags(self.y);
    }

    /// CMP immediate (0xc9).
    fn cmp_immediate(&mut self)
        ensures
            final(self)@ == old(self)@.read_instr(ReadOp::CompareA, Mode::Immediate),
    {
        let value: u8 = self.get_immediate();
        self.compare(self.a, value);
        self.pc = self.pc.wrapping_add(1);
    }

    /// DEX (0xca).
    fn dex(&mut self)
        ensures
            final(self)@ == old(self)@.implied_instr(ImpliedOp::Dex),
    {
        self.x = self.x.wrapping_sub(1);
        self.set_flags(self.x);
    }

    /// CPY absolute (0xcc).
    fn cpy_absolute(&mut self)
        ensures
            final(self)@ == old(self)@.read_instr(ReadOp::CompareY, Mode::Absolute),
    {
        let address: u16 = self.get_absolute_address();
        let value: u8 = self.memory.read(address);
        self.compare(self.y, value);
        self.pc = self.pc.wrapping_add(2);
    }

    /// CMP absolute (0xcd).
    fn cmp_absolute(&mut self)
        ensures
            final(self)@ == old(self)@.read_instr(ReadOp::CompareA, Mode::Absolute),
    {
        let address: u16 = self.get_absolute_address();
        let value: u8 = self.memory.read(address);
        self.compare(self.a, value);
        self.pc = self.pc.wrapping_add(2);
    }

    /// DEC absolute (0xce).
    fn dec_absolute(&mut self)
        ensures
            final(self)@ == old(self)@.modify_instr(ModifyOp::Dec, Mode::Absolute),
    {
        let address: u16 = self.get_absolute_address();
        let value: u8 = self.memory.read(address);
        let result: u8 = value.wrapping_sub(1);
        self.memory.write(address, result);
        self.set_flags(result);
        self.pc = self.pc.wrapping_add(2);
    }

    /// BNE relative (0xd0).
    fn bne(&mut self)
        ensures
            final(self)@ == old(self)@.branch_instr(Condition::NotEqual),
    {
        let offset: u8 = self.get_relative();
        if !self.zero_flag {
            self.perform_relative_address(offset);
        } else {
            self.pc = self.pc.wrapping_add(1);
        }
    }

    /// CMP (indirect),Y (0xd1).
    fn cmp_indirect_y(&mut self)
        ensures
            final(self)@ == old(self)@.read_instr(ReadOp::CompareA, Mode::IndirectY),
    {
        let address: u16 = self.get_indirect_y();
        let value: u8 = self.memory.read(address);
        self.compare(self.a, value);
        self.pc = self.pc.wrapping_add(1);
    }

    /// CMP zero page,X (0xd5).
    fn cmp_zeropage_x(&mut self)
        ensures
            final(self)@ == old(self)@.read_instr(ReadOp::CompareA, Mode::ZeroPageX),
    {
        let address: u16 = self.get_zeropage_x();
        let value: u8 = self.memory.read(address);
        self.compare(self.a, value);
        self.pc = self.pc.wrapping_add(1);
    }

    /// DEC zero page,X (0xd6).
    fn dec_zeropage_x(&mut self)
        ensures
            final(self)@ == old(self)@.modify_instr(ModifyOp::Dec, Mode::ZeroPageX),
    {
        let address: u16 = self.get_zeropage_x();
        let value: u8 = self.memory.read(address);
        let result: u8 = value.wrapping_sub(1);
        self.memory.write(address, result);
        self.set_flags(result);
        self.pc = self.pc.wrapping_add(1);
    }

    /// CLD (0xd8).
    fn cld(&mut self)
        ensures
            final(self)@ == old(self)@.implied_instr(ImpliedOp::Cld),
    {
        self.decimal_flag = false;
    }

    /// CMP absolute,Y (0xd9).
    fn cmp_absolute_y(&mut self)
        ensures
            final(self)@ == old(self)@.read_instr(ReadOp::CompareA, Mode::AbsoluteY),
    {
        let address: u16 = self.get_absolute_address_y();
        let value: u8 = self.memory.read(address);
        self.compare(self.a, value);
        self.pc = self.pc.wrapping_add(2);
    }

    /// PHX (0xda).
    fn phx(&mut self)
        ensures
            final(self)@ == old(self)@.push_instr(Register::X),
    {
        self.push_stack(self.x);
    }

    /// CMP absolute,X (0xdd).
    fn cmp_absolute_x(&mut self)
        ensures
            final(self)@ == old(self)@.read_instr(ReadOp::CompareA, Mode::AbsoluteX),
    {
        let address: u16 = self.get_absolute_address_x();
        let value: u8 = self.memory.read(address);
        self.compare(self.a, value);
        self.pc = self.pc.wrapping_add(2);
    }

    /// DEC absolute,X (0xde).
    fn dec_absolute_x(&mut self)
        ensures
            final(self)@ == old(self)@.modify_instr(ModifyOp::Dec, Mode::AbsoluteX),
    {
        let address: u16 = self.get_absolute_address_x();
        let value: u8 = self.memory.read(address);
        let result: u8 = value.wrapping_sub(1);
        self.memory.write(address, result);
        self.set_flags(result);
        self.pc = self.pc.wrapping_add(2);
    }

    /// CPX immediate (0xe0).
    fn cpx_immediate(&mut self)
        ensures
            final(self)@ == old(self)@.read_instr(ReadOp::CompareX, Mode::Immediate),
    {
        let value: u8 = self.get_immediate();
        self.compare(self.x, value);
        self.pc = self.pc.wrapping_add(1);
    }

    /// SBC (indirect,X) (0xe1).
    fn sbc_indirect_x(&mut self)
        ensures
            final(self)@ == old(self)@.read_instr(ReadOp::Sbc, Mode::IndirectX),
    {
        let address: u16 = self.get_indirect_x();
        let value: u8 = self.memory.read(address);
        self.sbc(value);
        self.pc = self.pc.wrapping_add(1);
    }

    /// CPX zero page (0xe4).
    fn cpx_zeropage(&mut self)
        ensures
            final(self)@ == old(self)@.read_instr(ReadOp::CompareX, Mode::ZeroPage),
    {
        let address: u16 = self.get_zeropage();
        let value: u8 = self.memory.read(address);
        self.compare(self.x, value);
        self.pc = self.pc.wrapping_add(1);
    }

    /// SBC zero page (0xe5).
    fn sbc_zeropage(&mut self)
        ensures
            final(self)@ == old(self)@.read_instr(ReadOp::Sbc, Mode::ZeroPage),
    {
        let address: u16 = self.get_zeropage();
        let value: u8 = self.memory.read(address);
        self.sbc(value);
        self.pc = self.pc.wrapping_add(1);
    }

    /// INC zero page (0xe6).
    fn inc_zeropage(&mut self)
        ensures
            final(self)@ == old(self)@.modify_instr(ModifyOp::Inc, Mode::ZeroPage),
    {
        let address: u16 = self.get_zeropage();
        let value: u8 = self.memory.read(address);
        let result: u8 = value.wrapping_add(1);
        self.memory.write(address, result);
        self.set_flags(result);
        self.pc = self.pc.wrapping_add(1);
    }

    /// INX (0xe8).
    fn inx(&mut self)
        ensures
            final(self)@ == old(self)@.implied_instr(ImpliedOp::Inx),
    {
        self.x = self.x.wrapping_add(1);
        self.set_flags(self.x);
    }

    /// SBC immediate (0xe9).
    fn sbc_immediate(&mut self)
        ensures
            final(self)@ == old(self)@.read_instr(ReadOp::Sbc, Mode::Immediate),
    {
        let value: u8 = self.get_immediate();
        self.sbc(value);
        self.pc = self.pc.wrapping_add(1);
    }

    /// NOP (0xea).
    fn nop(&mut self)
        ensures
            final(self)@ == old(self)@.implied_instr(ImpliedOp::Nop),
    {
    }

    /// CPX absolute (0xec).
    fn cpx_absolute(&mut self)
        ensures
            final(self)@ == old(self)@.read_instr(ReadOp::CompareX, Mode::Absolute),
    {
        let address: u16 = self.get_absolute_address();
        let value: u8 = self.memory.read(address);
        self.compare(self.x, value);
        self.pc = self.pc.wrapping_add(2);
    }

    /// SBC absolute (0xed).
    fn sbc_absolute(&mut self)
        ensures
            final(self)@ == old(self)@.read_instr(ReadOp::Sbc, Mode::Absolute),
    {
        let address: u16 = self.get_absolute_address();
        let value: u8 = self.memory.read(address);
        self.sbc(value);
        self.pc = self.pc.wrapping_add(2);
    }

    /// INC absolute (0xee).
    fn inc_absolute(&mut self)
        ensures
            final(self)@ == old(self)@.modify_instr(ModifyOp::Inc, Mode::Absolute),
    {
        let address: u16 = self.get_absolute_address();
        let value: u8 = self.memory.read(address);
        let result: u8 = value.wrapping_add(1);
        self.memory.write(address, result);
        self.set_flags(result);
        self.pc = self.pc.wrapping_add(2);
    }

    /// BEQ relative (0xf0).
    fn beq(&mut self)
        ensures
            final(self)@ == old(self)@.branch_instr(Condition::Equal),
    {
        let offset: u8 = self.get_relative();
        if self.zero_flag {
            self.perform_relative_address(offset);
        } else {
            self.pc = self.pc.wrapping_add(1);
        }
    }

    /// SBC (indirect),Y (0xf1).
    fn sbc_indirect_y(&mut self)
        ensures
            final(self)@ == old(self)@.read_instr(ReadOp::Sbc, Mode::IndirectY),
    {
        let address: u16 = self.get_indirect_y();
        let value: u8 = self.memory.read(address);
        self.sbc(value);
        self.pc = self.pc.wrapping_add(1);
    }

    /// SBC zero page,X (0xf5).
    fn sbc_zeropage_x(&mut self)
        ensures
            final(self)@ == old(self)@.read_instr(ReadOp::Sbc, Mode::ZeroPageX),
    {
        let address: u16 = self.get_zeropage_x();
        let value: u8 = self.memory.read(address);
        self.sbc(value);
        self.pc = self.pc.wrapping_add(1);
    }

    /// INC zero page,X (0xf6).
    fn inc_zeropage_x(&mut self)
        ensures
            final(self)@ == old(self)@.modify_instr(ModifyOp::Inc, Mode::ZeroPageX),
    {
        let address: u16 = self.get_zeropage_x();
        let value: u8 = self.memory.read(address);
        let result: u8 = value.wrapping_add(1);
        self.memory.write(address, result);
        self.set_flags(result);
        self.pc = self.pc.wrapping_add(1);
    }

    /// SED (0xf8).
    fn sed(&mut self)
        ensures
            final(self)@ == old(self)@.implied_instr(ImpliedOp::Sed),
    {
        self.decimal_flag = true;
    }

    /// SBC absolute,Y (0xf9).
    fn sbc_absolute_y(&mut self)
        ensures
            final(self)@ == old(self)@.read_instr(ReadOp::Sbc, Mode::AbsoluteY),
    {
        let address: u16 = self.get_absolute_address_y();
        let value: u8 = self.memory.read(address);
        self.sbc(value);
        self.pc = self.pc.wrapping_add(2);
    }

    /// PLX (0xfa).
    fn plx(&mut self)
        ensures
            final(self)@ == old(self)@.pull_instr(Register::X),
    {
        self.x = self.pop_stack();
        self.set_flags(self.x);
    }

    /// SBC absolute,X (0xfd).
    fn sbc_absolute_x(&mut self)
        ensures
            final(self)@ == old(self)@.read_instr(ReadOp::Sbc, Mode::AbsoluteX),
    {
        let address: u16 = self.get_absolute_address_x();
        let value: u8 = self.memory.read(address);
        self.sbc(value);
        self.pc = self.pc.wrapping_add(2);
    }

    /// INC absolute,X (0xfe).
    fn inc_absolute_x(&mut self)
        ensures
            final(self)@ == old(self)@.modify_instr(ModifyOp::Inc, Mode::AbsoluteX),
    {
        let address: u16 = self.get_absolute_address_x();
        let value: u8 = self.memory.read(address);
        let result: u8 = value.wrapping_add(1);
        self.memory.write(address, result);
        self.set_flags(result);
        self.pc = self.pc.wrapping_add(2);
    }
}

} // verus!
