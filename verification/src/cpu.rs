use vstd::prelude::*;
use crate::isa::{decode, instruction_of, Instruction, Mode, Op};
use crate::machine::{
    adc_spec, bit_spec, can_step, compare_spec, data_spec, effective_addr, fits, flow_spec,
    halts_within, is_data_op, is_register_op, lemma_run_unique, pc_advance, perform_spec, register_spec, run_spec, sbc_spec,
    shift_spec, stack_addr, step_spec, with_nz, word, CpuState,
};
use crate::memory::Memory;
use crate::register::StatusRegister;

verus! {

/// A MOS 6502 processor.
#[derive(Debug)]
pub struct CPU {
    a: u8,
    x: u8,
    y: u8,
    pc: u16,
    sp: u8,
    status: StatusRegister,
    halted: bool,
}

impl View for CPU {
    type V = CpuState;

    closed spec fn view(&self) -> CpuState {
        CpuState {
            a: self.a,
            x: self.x,
            y: self.y,
            pc: self.pc,
            sp: self.sp,
            status: self.status,
            halted: self.halted,
        }
    }
}

// ----- Facts about bit operations on bytes and words -----

/// Assembling a word from its bytes, and splitting it again.
proof fn lemma_word_bits(hi: u16, lo: u16)
    requires
        hi < 256,
        lo < 256,
    ensures
        (hi << 8u16) | lo == hi * 256 + lo,
{
    assert((hi << 8u16) | lo == hi * 256 + lo) by (bit_vector)
        requires
            hi < 256,
            lo < 256,
    ;
}

/// Masking with 0xFF keeps the low byte; the page-wrapping pointer increment.
proof fn lemma_low_byte(p: u16)
    ensures
        p & 0xFF == p % 256,
        p & 0xFF00 == p - p % 256,
        (p >> 8u16) & 0xFF == p / 256,
{
    assert(p & 0xFF == p % 256 && p & 0xFF00 == p - p % 256 && (p >> 8u16) & 0xFF == p / 256)
        by (bit_vector);
}

/// A byte read as a signed offset and widened to 16 bits.
proof fn lemma_offset_bits(b: u8)
    ensures
        ((b as i8) as u16) == (if b < 0x80 { b as int } else { b + 0xFF00 }),
{
    assert(((b as i8) as u16) == (if b < 0x80 { b as int } else { b + 0xFF00 })) by (bit_vector);
}

/// Combining a page base with an offset within the page.
proof fn lemma_page_join(page: u16, low: u16)
    requires
        page % 256 == 0,
        low < 256,
    ensures
        page | low == page + low,
{
    assert(page | low == page + low) by (bit_vector)
        requires
            page % 256 == 0,
            low < 256,
    ;
}

/// Single-bit tests of a byte, and the one-bit shifts.
proof fn lemma_byte_bits(v: u8)
    ensures
        ((v & 0x80) != 0) == (v >= 0x80),
        ((v & 0x40) != 0) == ((v / 64) % 2 == 1),
        ((v & 0x01) != 0) == (v % 2 == 1),
        v << 1u8 == (2 * v) % 256,
        (v << 1u8) | 1 == (2 * v) % 256 + 1,
        v >> 1u8 == v / 2,
        (v >> 1u8) | 0x80 == v / 2 + 128,
{
    assert(((v & 0x80) != 0) == (v >= 0x80) && ((v & 0x40) != 0) == ((v / 64) % 2 == 1) && ((v
        & 0x01) != 0) == (v % 2 == 1) && v << 1u8 == (2 * v) % 256 && (v << 1u8) | 1 == (2 * v)
        % 256 + 1 && v >> 1u8 == v / 2 && (v >> 1u8) | 0x80 == v / 2 + 128) by (bit_vector);
}

/// Sign bits in the overflow tests of ADC and SBC.
proof fn lemma_sign_bits(a: u8, v: u8, r: u8)
    ensures
        (((a ^ v) & 0x80) == 0) == ((a >= 0x80) == (v >= 0x80)),
        (((a ^ r) & 0x80) != 0) == ((a >= 0x80) != (r >= 0x80)),
{
    assert((((a ^ v) & 0x80) == 0) == ((a >= 0x80) == (v >= 0x80)) && (((a ^ r) & 0x80) != 0)
        == ((a >= 0x80) != (r >= 0x80))) by (bit_vector);
}

/// The sum of ADC: its low byte, and its bit 7 against that of A.
proof fn lemma_sum_bits(a: u8, sum: u16)
    requires
        sum < 512,
    ensures
        (((a as u16) ^ sum) & 0x80 != 0) == ((a >= 0x80) != ((sum % 256) >= 0x80)),
{
    assert((((a as u16) ^ sum) & 0x80 != 0) == ((a >= 0x80) != ((sum % 256) >= 0x80)))
        by (bit_vector)
        requires
            sum < 512,
    ;
}

/// A signed difference of bytes: its low byte and its bit 7.
proof fn lemma_diff_bits(d: i16)
    requires
        -256 <= d < 256,
    ensures
        (d & 0xFF) as u8 == d as u8,
        d as u8 == (if d < 0 { d + 256 } else { d as int }),
        ((d & 0x80) != 0) == ((d as u8) >= 0x80),
{
    assert((d & 0xFF) as u8 == d as u8 && d as u8 == (if d < 0 { d + 256 } else { d as int })
        && ((d & 0x80) != 0) == ((d as u8) >= 0x80)) by (bit_vector)
        requires
            -256 <= d < 256,
    ;
}

impl CPU {
    /// A processor in its initial state: registers zero, PC 0, SP 0xFF, flags clear.
    pub fn new() -> (cpu: Self)
        ensures
            cpu@ == (CpuState {
                a: 0,
                x: 0,
                y: 0,
                pc: 0,
                sp: 0xFF,
                status: StatusRegister {
                    c: false,
                    z: false,
                    i: false,
                    d: false,
                    b: false,
                    v: false,
                    n: false,
                },
                halted: false,
            }),
    {
        CPU { a: 0, x: 0, y: 0, pc: 0, sp: 0xFF, status: StatusRegister::new(), halted: false }
    }

    /// Sets the program counter.
    pub fn set_pc(&mut self, addr: u16)
        ensures
            final(self)@ == (CpuState { pc: addr, ..old(self)@ }),
    {
        self.pc = addr;
    }

    /// The accumulator.
    pub fn a(&self) -> (r: u8)
        ensures
            r == self@.a,
    {
        self.a
    }

    /// The X index register.
    pub fn x(&self) -> (r: u8)
        ensures
            r == self@.x,
    {
        self.x
    }

    /// The Y index register.
    pub fn y(&self) -> (r: u8)
        ensures
            r == self@.y,
    {
        self.y
    }

    /// The program counter.
    pub fn pc(&self) -> (r: u16)
        ensures
            r == self@.pc,
    {
        self.pc
    }

    /// The stack pointer.
    pub fn sp(&self) -> (r: u8)
        ensures
            r == self@.sp,
    {
        self.sp
    }

    /// Whether a BRK has halted the processor.
    pub fn is_halted(&self) -> (r: bool)
        ensures
            r == self@.halted,
    {
        self.halted
    }

    /// The carry flag.
    pub fn carry(&self) -> (r: bool)
        ensures
            r == self@.status.c,
    {
        self.status.c
    }

    /// The zero flag.
    pub fn zero(&self) -> (r: bool)
        ensures
            r == self@.status.z,
    {
        self.status.z
    }

    /// The negative flag.
    pub fn negative(&self) -> (r: bool)
        ensures
            r == self@.status.n,
    {
        self.status.n
    }

    /// The overflow flag.
    pub fn overflow(&self) -> (r: bool)
        ensures
            r == self@.status.v,
    {
        self.status.v
    }

    // ----- Addresses for the addressing modes; `pc` is on the first operand byte -----

    fn zero_page_addr(&self, memory: &Memory) -> (addr: u16)
        requires
            memory.wf(),
        ensures
            addr == memory@[self.pc as int],
    {
        memory.read(self.pc) as u16
    }

    fn zero_page_x_addr(&self, memory: &Memory) -> (addr: u16)
        requires
            memory.wf(),
        ensures
            addr == (memory@[self.pc as int] + self.x) % 256,
    {
        let sum = memory.read(self.pc) as u16 + self.x as u16;
        proof { lemma_low_byte(sum); }
        sum & 0xFF
    }

    fn zero_page_y_addr(&self, memory: &Memory) -> (addr: u16)
        requires
            memory.wf(),
        ensures
            addr == (memory@[self.pc as int] + self.y) % 256,
    {
        let sum = memory.read(self.pc) as u16 + self.y as u16;
        proof { lemma_low_byte(sum); }
        sum & 0xFF
    }

    fn absolute_addr(&self, memory: &Memory) -> (addr: u16)
        requires
            memory.wf(),
            self.pc < 0xFFFF,
        ensures
            addr == word(memory@, self.pc as int),
    {
        let lo = memory.read(self.pc) as u16;
        let hi = memory.read(self.pc + 1) as u16;
        proof { lemma_word_bits(hi, lo); }
        (hi << 8) | lo
    }

    fn absolute_x_addr(&self, memory: &Memory) -> (addr: u16)
        requires
            memory.wf(),
            self.pc < 0xFFFF,
            word(memory@, self.pc as int) + self.x <= 0xFFFF,
        ensures
            addr == word(memory@, self.pc as int) + self.x,
    {
        self.absolute_addr(memory) + self.x as u16
    }

    fn absolute_y_addr(&self, memory: &Memory) -> (addr: u16)
        requires
            memory.wf(),
            self.pc < 0xFFFF,
            word(memory@, self.pc as int) + self.y <= 0xFFFF,
        ensures
            addr == word(memory@, self.pc as int) + self.y,
    {
        self.absolute_addr(memory) + self.y as u16
    }

    fn indirect_addr(&self, memory: &Memory) -> (addr: u16)
        requires
            memory.wf(),
            self.pc < 0xFFFF,
            word(memory@, self.pc as int) < 0xFFFF,
        ensures
            addr == effective_addr(Mode::Indirect, self.pc as int, self.x, self.y, memory@),
    {
        // JMP ($addr) with the 6502 page-wrap on the high-byte fetch
        let ptr_lo = memory.read(self.pc) as u16;
        let ptr_hi = memory.read(self.pc + 1) as u16;
        proof { lemma_word_bits(ptr_hi, ptr_lo); }
        let ptr = (ptr_hi << 8) | ptr_lo;
        let lo = memory.read(ptr) as u16;
        proof {
            lemma_low_byte(ptr);
            lemma_low_byte((ptr + 1) as u16);
            lemma_page_join((ptr - ptr % 256) as u16, ((ptr + 1) % 256) as u16);
        }
        let hi_addr = (ptr & 0xFF00) | ((ptr + 1) & 0x00FF);
        let hi = memory.read(hi_addr) as u16;
        proof { lemma_word_bits(hi, lo); }
        (hi << 8) | lo
    }

    fn indirect_x_addr(&self, memory: &Memory) -> (addr: u16)
        requires
            memory.wf(),
        ensures
            addr == effective_addr(Mode::IndirectX, self.pc as int, self.x, self.y, memory@),
    {
        let sum = memory.read(self.pc) as u16 + self.x as u16;
        proof { lemma_low_byte(sum); }
        let addr = sum & 0xFF;
        let lo = memory.read(addr) as u16;
        proof { lemma_low_byte((addr + 1) as u16); }
        let hi = memory.read((addr + 1) & 0xFF) as u16;
        proof { lemma_word_bits(hi, lo); }
        (hi << 8) | lo
    }

    fn indirect_y_addr(&self, memory: &Memory) -> (addr: u16)
        requires
            memory.wf(),
        ensures
            addr == effective_addr(Mode::IndirectY, self.pc as int, self.x, self.y, memory@),
    {
        let zp = memory.read(self.pc) as u16;
        let lo = memory.read(zp) as u16;
        proof { lemma_low_byte((zp + 1) as u16); }
        let hi = memory.read((zp + 1) & 0xFF) as u16;
        proof { lemma_word_bits(hi, lo); }
        let base = (hi << 8) | lo;
        base.wrapping_add(self.y as u16)
    }

    // ----- The operations -----

    fn lda(&mut self, value: u8)
        ensures
            final(self)@ == (CpuState { a: value, status: with_nz(old(self)@.status, value), ..old(self)@ }),
    {
        self.a = value;
        self.status.z = self.a == 0;
        proof { lemma_byte_bits(self.a); }
        self.status.n = self.a & 0x80 != 0;
    }

    fn adc(&mut self, value: u8)
        ensures
            final(self)@ == adc_spec(old(self)@, value),
    {
        let carry: u16 = if self.status.c { 1 } else { 0 };
        let sum = self.a as u16 + value as u16 + carry;
        self.status.c = sum > 0xFF;
        proof {
            lemma_low_byte(sum);
            lemma_sum_bits(self.a, sum);
            lemma_sign_bits(self.a, value, (sum % 256) as u8);
        }
        self.status.v = ((self.a ^ value) & 0x80 == 0) && ((self.a as u16 ^ sum) & 0x80 != 0);
        self.a = (sum & 0xFF) as u8;
        self.status.z = self.a == 0;
        proof { lemma_byte_bits(self.a); }
        self.status.n = self.a & 0x80 != 0;
    }

    fn ora(&mut self, value: u8)
        ensures
            final(self)@ == (CpuState {
                a: old(self)@.a | value,
                status: with_nz(old(self)@.status, old(self)@.a | value),
                ..old(self)@
            }),
    {
        self.a |= value;
        self.status.z = self.a == 0;
        proof { lemma_byte_bits(self.a); }
        self.status.n = self.a & 0x80 != 0;
    }

    fn eor(&mut self, value: u8)
        ensures
            final(self)@ == (CpuState {
                a: old(self)@.a ^ value,
                status: with_nz(old(self)@.status, old(self)@.a ^ value),
                ..old(self)@
            }),
    {
        self.a ^= value;
        self.status.z = self.a == 0;
        proof { lemma_byte_bits(self.a); }
        self.status.n = self.a & 0x80 != 0;
    }

    fn and(&mut self, value: u8)
        ensures
            final(self)@ == (CpuState {
                a: old(self)@.a & value,
                status: with_nz(old(self)@.status, old(self)@.a & value),
                ..old(self)@
            }),
    {
        self.a &= value;
        self.status.z = self.a == 0;
        proof { lemma_byte_bits(self.a); }
        self.status.n = self.a & 0x80 != 0;
    }

    fn bit(&mut self, value: u8)
        ensures
            final(self)@ == (CpuState {
                status: bit_spec(old(self)@.status, old(self)@.a, value),
                ..old(self)@
            }),
    {
        let result = self.a & value;
        self.status.z = result == 0;
        proof { lemma_byte_bits(value); }
        self.status.n = (value & 0x80) != 0;
        self.status.v = (value & 0x40) != 0;
    }

    fn lsr(&mut self, value: u8) -> (result: u8)
        ensures
            result == shift_spec(Op::Lsr, value, old(self)@.status.c).0,
            final(self)@ == (CpuState {
                status: StatusRegister {
                    c: shift_spec(Op::Lsr, value, old(self)@.status.c).1,
                    ..with_nz(old(self)@.status, result)
                },
                ..old(self)@
            }),
    {
        proof { lemma_byte_bits(value); }
        self.status.c = (value & 0x01) != 0;
        let result = value >> 1;
        self.status.z = result == 0;
        proof { lemma_byte_bits(result); }
        self.status.n = (result & 0x80) != 0;
        result
    }

    fn asl(&mut self, value: u8) -> (result: u8)
        ensures
            result == shift_spec(Op::Asl, value, old(self)@.status.c).0,
            final(self)@ == (CpuState {
                status: StatusRegister {
                    c: shift_spec(Op::Asl, value, old(self)@.status.c).1,
                    ..with_nz(old(self)@.status, result)
                },
                ..old(self)@
            }),
    {
        proof { lemma_byte_bits(value); }
        self.status.c = (value & 0x80) != 0;
        let result = value << 1;
        self.status.z = result == 0;
        proof { lemma_byte_bits(result); }
        self.status.n = (result & 0x80) != 0;
        result
    }

    fn rol(&mut self, value: u8) -> (result: u8)
        ensures
            result == shift_spec(Op::Rol, value, old(self)@.status.c).0,
            final(self)@ == (CpuState {
                status: StatusRegister {
                    c: shift_spec(Op::Rol, value, old(self)@.status.c).1,
                    ..with_nz(old(self)@.status, result)
                },
                ..old(self)@
            }),
    {
        let old_carry = self.status.c;
        proof { lemma_byte_bits(value); }
        self.status.c = (value & 0x80) != 0;
        let result = if old_carry { (value << 1) | 1 } else { value << 1 };
        self.status.z = result == 0;
        proof { lemma_byte_bits(result); }
        self.status.n = (result & 0x80) != 0;
        result
    }

    fn ror(&mut self, value: u8) -> (result: u8)
        ensures
            result == shift_spec(Op::Ror, value, old(self)@.status.c).0,
            final(self)@ == (CpuState {
                status: StatusRegister {
                    c: shift_spec(Op::Ror, value, old(self)@.status.c).1,
                    ..with_nz(old(self)@.status, result)
                },
                ..old(self)@
            }),
    {
        let old_carry = self.status.c;
        proof { lemma_byte_bits(value); }
        self.status.c = (value & 0x01) != 0;
        let result = if old_carry { (value >> 1) | 0x80 } else { value >> 1 };
        self.status.z = result == 0;
        proof { lemma_byte_bits(result); }
        self.status.n = (result & 0x80) != 0;
        result
    }

    /// CMP: compares A with `value`.
    fn compare(&mut self, value: u8)
        ensures
            final(self)@ == (CpuState {
                status: compare_spec(old(self)@.status, old(self)@.a, value),
                ..old(self)@
            }),
    {
        let result = self.a as i16 - value as i16;
        self.status.c = result >= 0;
        self.status.z = self.a == value;
        proof { lemma_diff_bits(result); }
        self.status.n = (result & 0x80) != 0;
    }

    /// CPX and CPY: compares an index register's value `reg` with `value`.
    fn compare_index(&mut self, reg: u8, value: u8)
        ensures
            final(self)@ == (CpuState { status: compare_spec(old(self)@.status, reg, value), ..old(self)@ }),
    {
        let result = reg.wrapping_sub(value);
        self.status.c = reg >= value;
        self.status.z = result == 0;
        proof { lemma_byte_bits(result); }
        self.status.n = result & 0x80 != 0;
    }

    fn dec(&mut self, value: u8) -> (result: u8)
        ensures
            result == (value + 255) % 256,
            final(self)@ == (CpuState { status: with_nz(old(self)@.status, result), ..old(self)@ }),
    {
        let result = value.wrapping_sub(1);
        self.status.z = result == 0;
        proof { lemma_byte_bits(result); }
        self.status.n = result & 0x80 != 0;
        result
    }

    fn inc(&mut self, value: u8) -> (result: u8)
        ensures
            result == (value + 1) % 256,
            final(self)@ == (CpuState { status: with_nz(old(self)@.status, result), ..old(self)@ }),
    {
        let result = value.wrapping_add(1);
        self.status.z = result == 0;
        proof { lemma_byte_bits(result); }
        self.status.n = result & 0x80 != 0;
        result
    }

    fn sbc(&mut self, value: u8)
        ensures
            final(self)@ == sbc_spec(old(self)@, value),
    {
        let borrow: i16 = if self.status.c { 0 } else { 1 };
        let result = self.a as i16 - value as i16 - borrow;
        self.status.c = result >= 0;
        proof {
            lemma_diff_bits(result);
            lemma_sign_bits(self.a, value, result as u8);
        }
        self.status.v = ((self.a ^ value) & 0x80 != 0) && ((self.a ^ result as u8) & 0x80 != 0);
        self.a = (result & 0xFF) as u8;
        self.status.z = self.a == 0;
        self.status.n = (result & 0x80) != 0;
    }
}

impl CPU {
    /// The address that `ins` works on; `pc` is on its first operand byte.
    fn operand_addr(&self, ins: Instruction, memory: &Memory) -> (addr: u16)
        requires
            memory.wf(),
            fits(ins, self.pc as int, self.x, self.y, memory@),
        ensures
            addr == effective_addr(ins.mode, self.pc as int, self.x, self.y, memory@),
    {
        match ins.mode {
            Mode::ZeroPage => self.zero_page_addr(memory),
            Mode::ZeroPageX => self.zero_page_x_addr(memory),
            Mode::ZeroPageY => self.zero_page_y_addr(memory),
            Mode::Absolute => self.absolute_addr(memory),
            Mode::AbsoluteX => self.absolute_x_addr(memory),
            Mode::AbsoluteY => self.absolute_y_addr(memory),
            Mode::Indirect => self.indirect_addr(memory),
            Mode::IndirectX => self.indirect_x_addr(memory),
            Mode::IndirectY => self.indirect_y_addr(memory),
            _ => self.pc,
        }
    }

    /// The byte an operation reads: A in accumulator mode, else the byte at `ea`.
    fn operand(&self, mode: Mode, ea: u16, memory: &Memory) -> (v: u8)
        requires
            memory.wf(),
        ensures
            v == (if mode is Accumulator { self.a } else { memory@[ea as int] }),
    {
        if mode == Mode::Accumulator {
            self.a
        } else {
            memory.read(ea)
        }
    }

    /// Loads, logic, arithmetic, compares, shifts, increments and stores.
    #[verifier::rlimit(100)]
    #[verifier::spinoff_prover]
    fn operate_data(&mut self, op: Op, mode: Mode, ea: u16, memory: &mut Memory)
        requires
            old(memory).wf(),
            is_data_op(op),
        ensures
            final(memory).wf(),
            (final(self)@, final(memory)@) == data_spec(op, mode, ea as int, old(self)@, old(memory)@),
    {
        match op {
            Op::Lda => {
                let data = self.operand(mode, ea, memory);
                self.lda(data);
            },
            Op::Ldx => {
                self.x = self.operand(mode, ea, memory);
                self.status.z = self.x == 0;
                proof { lemma_byte_bits(self.x); }
                self.status.n = self.x & 0x80 != 0;
            },
            Op::Ldy => {
                self.y = self.operand(mode, ea, memory);
                self.status.z = self.y == 0;
                proof { lemma_byte_bits(self.y); }
                self.status.n = self.y & 0x80 != 0;
            },
            Op::Ora => {
                let data = self.operand(mode, ea, memory);
                self.ora(data);
            },
            Op::And => {
                let data = self.operand(mode, ea, memory);
                self.and(data);
            },
            Op::Eor => {
                let data = self.operand(mode, ea, memory);
                self.eor(data);
            },
            Op::Adc => {
                let data = self.operand(mode, ea, memory);
                self.adc(data);
            },
            Op::Sbc => {
                let data = self.operand(mode, ea, memory);
                self.sbc(data);
            },
            Op::CompareA => {
                let data = self.operand(mode, ea, memory);
                self.compare(data);
            },
            Op::CompareX => {
                let data = self.operand(mode, ea, memory);
                let reg = self.x;
                self.compare_index(reg, data);
            },
            Op::CompareY => {
                let data = self.operand(mode, ea, memory);
                let reg = self.y;
                self.compare_index(reg, data);
            },
            Op::Bit => {
                let data = self.operand(mode, ea, memory);
                self.bit(data);
            },
            Op::Asl | Op::Lsr | Op::Rol | Op::Ror => {
                let data = self.operand(mode, ea, memory);
                let result = match op {
                    Op::Asl => self.asl(data),
                    Op::Lsr => self.lsr(data),
                    Op::Rol => self.rol(data),
                    _ => self.ror(data),
                };
                if mode == Mode::Accumulator {
                    self.a = result;
                } else {
                    memory.write(ea, result);
                }
            },
            Op::Inc => {
                let data = memory.read(ea);
                let result = self.inc(data);
                memory.write(ea, result);
            },
            Op::Dec => {
                let data = memory.read(ea);
                let result = self.dec(data);
                memory.write(ea, result);
            },
            Op::Sta => memory.write(ea, self.a),
            Op::Stx => memory.write(ea, self.x),
            _ => memory.write(ea, self.y),
        }
    }

    /// Increments, decrements and transfers of registers, and the flag operations.
    #[verifier::rlimit(100)]
    #[verifier::spinoff_prover]
    fn operate_register(&mut self, op: Op)
        requires
            is_register_op(op),
        ensures
            final(self)@ == register_spec(op, old(self)@),
    {
        match op {
            Op::Inx => {
                self.x = self.x.wrapping_add(1);
                self.status.z = self.x == 0;
                proof { lemma_byte_bits(self.x); }
                self.status.n = self.x & 0x80 != 0;
            },
            Op::Iny => {
                self.y = self.y.wrapping_add(1);
                self.status.z = self.y == 0;
                proof { lemma_byte_bits(self.y); }
                self.status.n = self.y & 0x80 != 0;
            },
            Op::Dex => {
                self.x = self.x.wrapping_sub(1);
                self.status.z = self.x == 0;
                proof { lemma_byte_bits(self.x); }
                self.status.n = self.x & 0x80 != 0;
            },
            Op::Dey => {
                self.y = self.y.wrapping_sub(1);
                self.status.z = self.y == 0;
                proof { lemma_byte_bits(self.y); }
                self.status.n = self.y & 0x80 != 0;
            },
            Op::Tax => {
                self.x = self.a;
                self.status.z = self.x == 0;
                proof { lemma_byte_bits(self.x); }
                self.status.n = self.x & 0x80 != 0;
            },
            Op::Tay => {
                self.y = self.a;
                self.status.z = self.y == 0;
                proof { lemma_byte_bits(self.y); }
                self.status.n = self.y & 0x80 != 0;
            },
            Op::Txa => {
                self.a = self.x;
                self.status.z = self.a == 0;
                proof { lemma_byte_bits(self.a); }
                self.status.n = self.a & 0x80 != 0;
            },
            Op::Tya => {
                self.a = self.y;
                self.status.z = self.a == 0;
                proof { lemma_byte_bits(self.a); }
                self.status.n = self.a & 0x80 != 0;
            },
            Op::Tsx => {
                self.x = self.sp;
                self.status.z = self.x == 0;
                proof { lemma_byte_bits(self.x); }
                self.status.n = self.x & 0x80 != 0;
            },
            Op::Txs => {
                self.sp = self.x;
            },
            Op::Clc => {
                self.status.c = false;
            },
            Op::Sec => {
                self.status.c = true;
            },
            Op::Cli => {
                self.status.i = false;
            },
            Op::Sei => {
                self.status.i = true;
            },
            Op::Cld => {
                self.status.d = false;
            },
            Op::Sed => {
                self.status.d = true;
            },
            Op::Clv => {
                self.status.v = false;
            },
            _ => {},
        }
    }

    /// Pushes `value` onto the stack.
    fn push(&mut self, memory: &mut Memory, value: u8)
        requires
            old(memory).wf(),
        ensures
            final(memory).wf(),
            final(memory)@ == old(memory)@.update(stack_addr(old(self)@.sp), value),
            final(self)@ == (CpuState { sp: ((old(self)@.sp + 255) % 256) as u8, ..old(self)@ }),
    {
        memory.write(0x0100 + self.sp as u16, value);
        self.sp = self.sp.wrapping_sub(1);
    }

    /// Pulls a byte from the stack.
    fn pull(&mut self, memory: &Memory) -> (value: u8)
        requires
            memory.wf(),
        ensures
            final(self)@ == (CpuState { sp: ((old(self)@.sp + 1) % 256) as u8, ..old(self)@ }),
            value == memory@[stack_addr(final(self)@.sp)],
    {
        self.sp = self.sp.wrapping_add(1);
        memory.read(0x0100 + self.sp as u16)
    }

    /// Stack, jump, return, break and branch operations.
    #[verifier::rlimit(100)]
    #[verifier::spinoff_prover]
    fn operate_flow(&mut self, op: Op, ea: u16, memory: &mut Memory)
        requires
            old(memory).wf(),
            !is_data_op(op),
            !is_register_op(op),
            op is Jsr ==> old(self)@.pc < 0xFFFF,
        ensures
            final(memory).wf(),
            (final(self)@, final(memory)@) == flow_spec(op, ea as int, old(self)@, old(memory)@),
    {
        match op {
            Op::Pha => {
                let a = self.a;
                self.push(memory, a);
            },
            Op::Php => {
                let p = self.status.as_byte();
                self.push(memory, p);
            },
            Op::Pla => {
                self.a = self.pull(memory);
                self.status.z = self.a == 0;
                proof { lemma_byte_bits(self.a); }
                self.status.n = self.a & 0x80 != 0;
            },
            Op::Plp => {
                let status = self.pull(memory);
                self.status = StatusRegister::from_byte(status);
            },
            Op::Jmp => {
                self.pc = ea;
            },
            Op::Jsr => {
                // the return address is that of the last operand byte
                let return_addr = self.pc + 1;
                proof { lemma_low_byte(return_addr); }
                self.push(memory, ((return_addr >> 8) & 0xFF) as u8);
                self.push(memory, (return_addr & 0xFF) as u8);
                self.pc = ea;
            },
            Op::Rts => {
                let lo = self.pull(memory) as u16;
                let hi = self.pull(memory) as u16;
                proof { lemma_word_bits(hi, lo); }
                self.pc = ((hi << 8) | lo).wrapping_add(1);
            },
            Op::Rti => {
                let status = self.pull(memory);
                self.status = StatusRegister::from_byte(status);
                let lo = self.pull(memory) as u16;
                let hi = self.pull(memory) as u16;
                proof { lemma_word_bits(hi, lo); }
                self.pc = (hi << 8) | lo;
            },
            Op::Brk => {
                // push the address after the opcode and the status with B set, then halt
                let return_addr = self.pc;
                proof { lemma_low_byte(return_addr); }
                self.push(memory, ((return_addr >> 8) & 0xFF) as u8);
                self.push(memory, (return_addr & 0xFF) as u8);
                let mut pushed = self.status;
                pushed.b = true;
                let p = pushed.as_byte();
                self.push(memory, p);
                self.status.i = true;
                let lo = memory.read(0xFFFE) as u16;
                let hi = memory.read(0xFFFF) as u16;
                proof { lemma_word_bits(hi, lo); }
                self.pc = (hi << 8) | lo;
                self.halted = true;
            },
            _ => {
                // the branches; the offset byte is at `ea`
                let taken = match op {
                    Op::Bpl => !self.status.n,
                    Op::Bmi => self.status.n,
                    Op::Bvc => !self.status.v,
                    Op::Bvs => self.status.v,
                    Op::Bcc => !self.status.c,
                    Op::Bcs => self.status.c,
                    Op::Bne => !self.status.z,
                    Op::Beq => self.status.z,
                    _ => true,
                };
                let offset = memory.read(ea);
                if taken {
                    proof { lemma_offset_bits(offset); }
                    self.pc = self.pc.wrapping_add((offset as i8) as u16);
                }
            },
        }
    }
}

/// How far the program counter moves past the opcode's successor before
/// `ins` operates.
fn advance(ins: Instruction) -> (n: u16)
    ensures
        n == pc_advance(ins),
{
    match ins.mode {
        Mode::Implied | Mode::Accumulator | Mode::Indirect => 0,
        Mode::Absolute | Mode::AbsoluteX | Mode::AbsoluteY => match ins.op {
            Op::Jmp | Op::Jsr => 0,
            _ => 2,
        },
        _ => 1,
    }
}

/// Whether `ins`, with the byte after its opcode at `pc`, keeps its address
/// arithmetic within 16 bits.
fn fits_at(ins: Instruction, pc: u16, x: u8, y: u8, memory: &Memory) -> (r: bool)
    requires
        memory.wf(),
    ensures
        r == fits(ins, pc as int, x, y, memory@),
{
    let end = pc as u32 + advance(ins) as u32;
    if end > 0xFFFF {
        return false;
    }
    if matches!(ins.op, Op::Jsr) && end + 1 > 0xFFFF {
        return false;
    }
    match ins.mode {
        Mode::Absolute | Mode::AbsoluteX | Mode::AbsoluteY | Mode::Indirect => {
            if pc == 0xFFFF {
                return false;
            }
            let target = memory.read(pc) as u32 + 256 * memory.read(pc + 1) as u32;
            match ins.mode {
                Mode::AbsoluteX => target + (x as u32) <= 0xFFFF,
                Mode::AbsoluteY => target + (y as u32) <= 0xFFFF,
                Mode::Indirect => target < 0xFFFF,
                _ => true,
            }
        },
        _ => true,
    }
}

impl CPU {
    /// Whether the next `step` is defined: the processor has halted, or the
    /// byte at the program counter is an implemented opcode whose address
    /// arithmetic stays within 16 bits.
    pub fn step_defined(&self, memory: &Memory) -> (r: bool)
        requires
            memory.wf(),
        ensures
            r == can_step(self@, memory@),
    {
        if self.halted {
            return true;
        }
        if self.pc == 0xFFFF {
            return false;
        }
        match decode(memory.read(self.pc)) {
            Some(ins) => fits_at(ins, self.pc + 1, self.x, self.y, memory),
            None => false,
        }
    }

    /// Executes `ins`, with the program counter on the byte after its opcode.
    fn perform(&mut self, ins: Instruction, memory: &mut Memory)
        requires
            old(memory).wf(),
            fits(ins, old(self)@.pc as int, old(self)@.x, old(self)@.y, old(memory)@),
        ensures
            final(memory).wf(),
            (final(self)@, final(memory)@) == perform_spec(ins, old(self)@, old(memory)@),
    {
        let ea = self.operand_addr(ins, memory);
        self.pc = self.pc + advance(ins);
        match ins.op {
            Op::Lda | Op::Ldx | Op::Ldy | Op::Ora | Op::And | Op::Eor | Op::Adc | Op::Sbc
            | Op::CompareA | Op::CompareX | Op::CompareY | Op::Bit | Op::Asl | Op::Lsr | Op::Rol
            | Op::Ror | Op::Inc | Op::Dec | Op::Sta | Op::Stx | Op::Sty => {
                self.operate_data(ins.op, ins.mode, ea, memory);
            },
            Op::Inx | Op::Iny | Op::Dex | Op::Dey | Op::Tax | Op::Tay | Op::Txa | Op::Tya
            | Op::Tsx | Op::Txs | Op::Clc | Op::Sec | Op::Cli | Op::Sei | Op::Cld | Op::Sed
            | Op::Clv | Op::Nop => {
                self.operate_register(ins.op);
            },
            _ => {
                self.operate_flow(ins.op, ea, memory);
            },
        }
    }

    /// Fetches, decodes and executes the instruction at the program counter.
    fn execute(&mut self, memory: &mut Memory)
        requires
            old(memory).wf(),
            !old(self)@.halted,
            can_step(old(self)@, old(memory)@),
        ensures
            final(memory).wf(),
            (final(self)@, final(memory)@) == step_spec(old(self)@, old(memory)@),
    {
        proof {
            reveal(step_spec);
        }
        let opcode = memory.read(self.pc);
        self.pc += 1;
        match decode(opcode) {
            Some(ins) => self.perform(ins, memory),
            None => {
                // `can_step` rules out an opcode without an instruction
                proof {
                    assert(false);
                }
            },
        }
    }

    /// Executes one instruction, unless the processor has halted.
    pub fn step(&mut self, memory: &mut Memory)
        requires
            old(memory).wf(),
            can_step(old(self)@, old(memory)@),
        ensures
            final(memory).wf(),
            (final(self)@, final(memory)@) == step_spec(old(self)@, old(memory)@),
    {
        proof {
            reveal(step_spec);
        }
        if !self.halted {
            self.execute(memory);
        }
    }

    /// Executes instructions until a BRK halts the processor.
    pub fn run(&mut self, memory: &mut Memory)
        requires
            old(memory).wf(),
            exists|n: nat| halts_within(old(self)@, old(memory)@, n),
        ensures
            final(memory).wf(),
            final(self)@.halted,
            forall|n: nat|
                halts_within(old(self)@, old(memory)@, n) ==> (final(self)@, final(memory)@)
                    == run_spec(old(self)@, old(memory)@, n),
    {
        let ghost bound = choose|n: nat| halts_within(self@, memory@, n);
        let ghost start = (self@, memory@);
        let ghost mut fuel = bound;
        while !self.halted
            invariant
                memory.wf(),
                halts_within(self@, memory@, fuel),
                halts_within(start.0, start.1, bound),
                run_spec(self@, memory@, fuel) == run_spec(start.0, start.1, bound),
            decreases fuel,
        {
            self.execute(memory);
            proof {
                fuel = (fuel - 1) as nat;
            }
        }
        proof {
            assert forall|n: nat| halts_within(start.0, start.1, n) implies (self@, memory@)
                == run_spec(start.0, start.1, n) by {
                lemma_run_unique(start.0, start.1, bound, n);
            }
        }
    }
}

} // verus!
