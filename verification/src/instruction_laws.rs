use vstd::prelude::*;
use crate::isa::{instruction_of, Instruction, Mode, Op};
use crate::register::StatusRegister;
use crate::laws::{lemma_adc_sum, lemma_sbc_difference};
use crate::machine::{
    CpuState, apply, can_step, data_spec, effective_addr, flow_spec, is_data_op, is_register_op,
    pc_advance, perform_spec, register_spec, shift_spec, step_spec,
};
use crate::opcodes::{
    ADC_IMM, AND_IMM, ASL_ACC, BIT_ZP, BRA, CLC, CLD, CLI, CLV, CMP_IMM, CPX_IMM, CPY_IMM,
    DEC_ZP, DEX, DEY, EOR_IMM, INC_ZP, INX, INY, JMP_IND, LDA_ABS, LDA_ABSX, LDA_ABSY, LDA_IMM,
    LDA_INDX, LDA_INDY, LDA_ZP, LDA_ZPX, LDX_ABSY, LDX_ZPY, LDY_ABSX, LDY_ZPX, LSR_ACC, NOP,
    ORA_IMM, ROL_ACC, ROR_ACC, SBC_IMM, SEC, SED, SEI, STA_ABS, STA_ABSX, STA_ABSY, STA_INDX,
    STA_INDY, STA_ZP, STA_ZPX, STX_ABS, STX_ZP, STX_ZPY, STY_ABS, STY_ZP, STY_ZPX, TAX, TAY,
    TSX, TXA, TXS, TYA,
};

verus! {

// What single instructions do, stated with plain arithmetic on the registers,
// the flags and the bytes of memory.

/// A step from a running state executes the instruction at the program counter
/// with the program counter moved past the opcode.
proof fn lemma_step_unfold(s: CpuState, m: Seq<u8>)
    requires
        !s.halted,
    ensures
        step_spec(s, m) == perform_spec(
            instruction_of(m[s.pc as int])->0,
            CpuState { pc: (s.pc + 1) as u16, ..s },
            m,
        ),
{
    reveal(step_spec);
}

/// A step executes the instruction `ins` decoded at the program counter.
proof fn lemma_step_as(s: CpuState, m: Seq<u8>, ins: Instruction)
    requires
        !s.halted,
        s.pc < 0xFFFF,
        instruction_of(m[s.pc as int]) == Some(ins),
    ensures
        step_spec(s, m) == apply(
            ins.op,
            ins.mode,
            effective_addr(ins.mode, s.pc + 1, s.x, s.y, m),
            CpuState { pc: (s.pc + 1 + pc_advance(ins)) as u16, ..s },
            m,
        ),
{
    lemma_step_unfold(s, m);
}

/// A step executes the data operation `ins` decoded at the program counter.
proof fn lemma_step_data(s: CpuState, m: Seq<u8>, ins: Instruction)
    requires
        !s.halted,
        s.pc < 0xFFFF,
        instruction_of(m[s.pc as int]) == Some(ins),
        is_data_op(ins.op),
    ensures
        step_spec(s, m) == data_spec(
            ins.op,
            ins.mode,
            effective_addr(ins.mode, s.pc + 1, s.x, s.y, m),
            CpuState { pc: (s.pc + 1 + pc_advance(ins)) as u16, ..s },
            m,
        ),
{
    lemma_step_as(s, m, ins);
}

/// A step executes the stack, jump or branch operation `ins` decoded at the
/// program counter.
proof fn lemma_step_flow(s: CpuState, m: Seq<u8>, ins: Instruction)
    requires
        !s.halted,
        s.pc < 0xFFFF,
        instruction_of(m[s.pc as int]) == Some(ins),
        !is_data_op(ins.op),
        !is_register_op(ins.op),
    ensures
        step_spec(s, m) == flow_spec(
            ins.op,
            effective_addr(ins.mode, s.pc + 1, s.x, s.y, m),
            CpuState { pc: (s.pc + 1 + pc_advance(ins)) as u16, ..s },
            m,
        ),
{
    lemma_step_as(s, m, ins);
}

/// A step executes the register operation `ins` decoded at the program counter.
proof fn lemma_step_register(s: CpuState, m: Seq<u8>, ins: Instruction)
    requires
        !s.halted,
        s.pc < 0xFFFF,
        instruction_of(m[s.pc as int]) == Some(ins),
        is_register_op(ins.op),
        ins.mode == Mode::Implied,
    ensures
        step_spec(s, m) == (register_spec(ins.op, CpuState { pc: (s.pc + 1) as u16, ..s }), m),
{
    lemma_step_as(s, m, ins);
}

/// A byte difference taken modulo 256.
proof fn lemma_difference_byte(r: int, v: int)
    requires
        0 <= r < 256,
        0 <= v < 256,
    ensures
        ((r - v) % 256) as u8 == (r - v + 256) % 256,
{
    if r >= v {
        assert((r - v) % 256 == r - v);
        assert((r - v + 256) % 256 == r - v);
    } else {
        assert((r - v) % 256 == r - v + 256);
        assert((r - v + 256) % 256 == r - v + 256);
    }
}

/// The one-bit shifts and rotations of a byte, as arithmetic.
proof fn lemma_shift_arithmetic(v: u8, c: bool)
    ensures
        shift_spec(Op::Asl, v, c).0 + 256 * (if shift_spec(Op::Asl, v, c).1 { 1int } else { 0 })
            == 2 * v,
        v == 2 * shift_spec(Op::Lsr, v, c).0 + (if shift_spec(Op::Lsr, v, c).1 { 1int } else { 0 }),
        shift_spec(Op::Rol, v, c).0 + 256 * (if shift_spec(Op::Rol, v, c).1 { 1int } else { 0 })
            == 2 * v + (if c { 1int } else { 0 }),
        v + 256 * (if c { 1int } else { 0 }) == 2 * shift_spec(Op::Ror, v, c).0 + (if shift_spec(
            Op::Ror,
            v,
            c,
        ).1 { 1int } else { 0 }),
{
}

/// Moving a 16-bit address by a signed offset, modulo 65536.
proof fn lemma_wrap_offset(p: int, d: int)
    requires
        0 <= p < 0x10000,
        -128 <= d < 128,
    ensures
        ((p + d) % 0x10000) as u16 == (p + d + 0x10000) % 0x10000,
{
    if p + d < 0 {
        assert((p + d) % 0x10000 == p + d + 0x10000);
        assert((p + d + 0x10000) % 0x10000 == p + d + 0x10000);
    } else if p + d < 0x10000 {
        assert((p + d) % 0x10000 == p + d);
        assert((p + d + 0x10000) % 0x10000 == p + d);
    } else {
        assert((p + d) % 0x10000 == p + d - 0x10000);
        assert((p + d + 0x10000) % 0x10000 == p + d - 0x10000);
    }
}

/// CMP, CPX and CPY #$nn compare A, X or Y with the operand byte as unsigned
/// numbers: C is set exactly when the register is at least the operand (the
/// subtraction needs no borrow), Z exactly when they are equal, and N is bit 7
/// of their difference modulo 256. Nothing else changes but the program
/// counter, which moves past both bytes.
pub proof fn lemma_step_compare_immediate(s: CpuState, m: Seq<u8>)
    requires
        !s.halted,
        s.pc + 2 <= 0xFFFF,
        m.len() == 0x10000,
        m[s.pc as int] == CMP_IMM || m[s.pc as int] == CPX_IMM || m[s.pc as int] == CPY_IMM,
    ensures
        can_step(s, m),
        ({
            let (s1, m1) = step_spec(s, m);
            let r: int = if m[s.pc as int] == CMP_IMM {
                s.a as int
            } else if m[s.pc as int] == CPX_IMM {
                s.x as int
            } else {
                s.y as int
            };
            let v: int = m[s.pc + 1] as int;
            &&& s1.status.c == (r >= v)
            &&& s1.status.z == (r == v)
            &&& s1.status.n == ((r - v + 256) % 256 >= 128)
            &&& s1.status.i == s.status.i && s1.status.d == s.status.d && s1.status.b == s.status.b
                && s1.status.v == s.status.v
            &&& s1.a == s.a && s1.x == s.x && s1.y == s.y && s1.sp == s.sp && !s1.halted
            &&& s1.pc == s.pc + 2
            &&& m1 == m
        }),
{
    let op = m[s.pc as int];
    let v = m[s.pc + 1];
    if op == CMP_IMM {
        lemma_difference_byte(s.a as int, v as int);
        lemma_step_data(s, m, Instruction { op: Op::CompareA, mode: Mode::Immediate });
    } else if op == CPX_IMM {
        lemma_difference_byte(s.x as int, v as int);
        lemma_step_data(s, m, Instruction { op: Op::CompareX, mode: Mode::Immediate });
    } else {
        lemma_difference_byte(s.y as int, v as int);
        lemma_step_data(s, m, Instruction { op: Op::CompareY, mode: Mode::Immediate });
    }
}

/// ASL, LSR, ROL and ROR A shift A by one bit through the carry: ROL gives
/// A' + 256 * C' = 2 * A + C, ROR gives A + 256 * C = 2 * A' + C', ASL and LSR
/// shift in a zero. Z and N follow A'; memory is unchanged.
pub proof fn lemma_step_shift_accumulator(s: CpuState, m: Seq<u8>)
    requires
        !s.halted,
        s.pc + 1 <= 0xFFFF,
        m.len() == 0x10000,
        m[s.pc as int] == ASL_ACC || m[s.pc as int] == LSR_ACC || m[s.pc as int] == ROL_ACC
            || m[s.pc as int] == ROR_ACC,
    ensures
        can_step(s, m),
        ({
            let (s1, m1) = step_spec(s, m);
            let op = m[s.pc as int];
            let c: int = if s.status.c { 1 } else { 0 };
            let c1: int = if s1.status.c { 1 } else { 0 };
            &&& op == ASL_ACC ==> s1.a + 256 * c1 == 2 * s.a
            &&& op == LSR_ACC ==> s.a == 2 * s1.a + c1
            &&& op == ROL_ACC ==> s1.a + 256 * c1 == 2 * s.a + c
            &&& op == ROR_ACC ==> s.a + 256 * c == 2 * s1.a + c1
            &&& s1.status.z == (s1.a == 0)
            &&& s1.status.n == (s1.a >= 128)
            &&& s1.x == s.x && s1.y == s.y && s1.sp == s.sp && s1.pc == s.pc + 1
            &&& s1.status.v == s.status.v && s1.status.i == s.status.i && s1.status.d == s.status.d
            &&& m1 == m
        }),
{
    lemma_shift_arithmetic(s.a, s.status.c);
    let op = m[s.pc as int];
    if op == ASL_ACC {
        lemma_step_data(s, m, Instruction { op: Op::Asl, mode: Mode::Accumulator });
    } else if op == LSR_ACC {
        lemma_step_data(s, m, Instruction { op: Op::Lsr, mode: Mode::Accumulator });
    } else if op == ROL_ACC {
        lemma_step_data(s, m, Instruction { op: Op::Rol, mode: Mode::Accumulator });
    } else {
        lemma_step_data(s, m, Instruction { op: Op::Ror, mode: Mode::Accumulator });
    }
}

/// The conditional branch $x0 with x odd (BPL $10, BMI $30, BVC $50, BVS $70,
/// BCC $90, BCS $B0, BNE $D0, BEQ $F0) tests N, V, C or Z (bits 7-6 of the
/// opcode) and branches exactly when that flag equals bit 5 of the opcode; BRA
/// ($80) always branches. A branch moves the program counter to the address
/// after its two bytes plus the signed offset byte, wrapping at 16 bits; a
/// branch not taken moves it past the two bytes. Nothing else changes.
pub proof fn lemma_step_conditional_branch(s: CpuState, m: Seq<u8>)
    requires
        !s.halted,
        s.pc + 2 <= 0xFFFF,
        m.len() == 0x10000,
        m[s.pc as int] % 32 == 16 || m[s.pc as int] == BRA,
    ensures
        can_step(s, m),
        ({
            let op = m[s.pc as int];
            let flag = if op / 64 == 0 {
                s.status.n
            } else if op / 64 == 1 {
                s.status.v
            } else if op / 64 == 2 {
                s.status.c
            } else {
                s.status.z
            };
            let taken = op == BRA || flag == ((op / 32) % 2 == 1);
            let off = m[s.pc + 1] as int;
            let delta = if off < 128 { off } else { off - 256 };
            let target = (s.pc + 2 + delta + 0x10000) % 0x10000;
            step_spec(s, m) == (
                CpuState { pc: if taken { target as u16 } else { (s.pc + 2) as u16 }, ..s },
                m,
            )
        }),
{
    let op = m[s.pc as int];
    assert(op == 0x80 || op == 16 || op == 48 || op == 80 || op == 112 || op == 144 || op == 176
        || op == 208 || op == 240) by (bit_vector)
        requires
            op % 32 == 16 || op == 0x80,
    ;
    let b = if op == 0x80 {
        Op::Bra
    } else if op == 16 {
        Op::Bpl
    } else if op == 48 {
        Op::Bmi
    } else if op == 80 {
        Op::Bvc
    } else if op == 112 {
        Op::Bvs
    } else if op == 144 {
        Op::Bcc
    } else if op == 176 {
        Op::Bcs
    } else if op == 208 {
        Op::Bne
    } else {
        Op::Beq
    };
    let off = m[s.pc + 1] as int;
    lemma_wrap_offset(s.pc + 2, if off < 128 { off } else { off - 256 });
    lemma_step_flow(s, m, Instruction { op: b, mode: Mode::Relative });
}

/// The load instructions read the byte at their effective address: #$nn the
/// operand byte b1; $nn the byte at b1; $nn,X the byte at (b1 + X) mod 256;
/// $nnnn the byte at b1 + 256 * b2; $nnnn,X and $nnnn,Y that address plus X or
/// Y; ($nn,X) the byte at the address stored at (b1 + X) mod 256 and the next
/// zero-page byte; ($nn),Y the address stored at b1 and (b1 + 1) mod 256, plus
/// Y, modulo 65536. LDX indexes its zero-page and absolute forms by Y, LDY by X.
/// The program counter moves past the instruction and memory is unchanged.
pub proof fn lemma_step_load_addressing(s: CpuState, m: Seq<u8>)
    requires
        !s.halted,
        s.pc + 3 <= 0xFFFF,
        m.len() == 0x10000,
        can_step(s, m),
    ensures
        ({
            let (s1, m1) = step_spec(s, m);
            let op = m[s.pc as int];
            let b1 = m[s.pc + 1] as int;
            let b2 = m[s.pc + 2] as int;
            let abs = b1 + 256 * b2;
            let zx = (b1 + s.x) % 256;
            &&& op == LDA_IMM ==> s1.a == b1 && s1.pc == s.pc + 2 && m1 == m
            &&& op == LDA_ZP ==> s1.a == m[b1] && s1.pc == s.pc + 2 && m1 == m
            &&& op == LDA_ZPX ==> s1.a == m[(b1 + s.x) % 256] && s1.pc == s.pc + 2 && m1 == m
            &&& op == LDA_ABS ==> s1.a == m[abs] && s1.pc == s.pc + 3 && m1 == m
            &&& op == LDA_ABSX ==> s1.a == m[abs + s.x] && s1.pc == s.pc + 3 && m1 == m
            &&& op == LDA_ABSY ==> s1.a == m[abs + s.y] && s1.pc == s.pc + 3 && m1 == m
            &&& op == LDA_INDX ==> s1.a == m[m[zx] + 256 * m[(zx + 1) % 256]] && s1.pc == s.pc + 2
                && m1 == m
            &&& op == LDA_INDY ==> s1.a == m[(m[b1] + 256 * m[(b1 + 1) % 256] + s.y) % 0x10000]
                && s1.pc == s.pc + 2 && m1 == m
            &&& op == LDX_ZPY ==> s1.x == m[(b1 + s.y) % 256] && s1.a == s.a && s1.y == s.y
                && s1.pc == s.pc + 2 && m1 == m
            &&& op == LDX_ABSY ==> s1.x == m[abs + s.y] && s1.a == s.a && s1.y == s.y && s1.pc
                == s.pc + 3 && m1 == m
            &&& op == LDY_ZPX ==> s1.y == m[(b1 + s.x) % 256] && s1.a == s.a && s1.x == s.x
                && s1.pc == s.pc + 2 && m1 == m
            &&& op == LDY_ABSX ==> s1.y == m[abs + s.x] && s1.a == s.a && s1.x == s.x && s1.pc
                == s.pc + 3 && m1 == m
        }),
{
    lemma_step_unfold(s, m);
}

/// The store instructions write their register at their effective address,
/// computed as for the loads (STX $nn,Y indexes by Y, STY $nn,X by X), and
/// change no register but the program counter.
pub proof fn lemma_step_store_addressing(s: CpuState, m: Seq<u8>)
    requires
        !s.halted,
        s.pc + 3 <= 0xFFFF,
        m.len() == 0x10000,
        can_step(s, m),
    ensures
        ({
            let (s1, m1) = step_spec(s, m);
            let op = m[s.pc as int];
            let b1 = m[s.pc + 1] as int;
            let b2 = m[s.pc + 2] as int;
            let abs = b1 + 256 * b2;
            let zx = (b1 + s.x) % 256;
            let short = CpuState { pc: (s.pc + 2) as u16, ..s };
            let long = CpuState { pc: (s.pc + 3) as u16, ..s };
            &&& op == STA_ZP ==> s1 == short && m1 == m.update(b1, s.a)
            &&& op == STA_ZPX ==> s1 == short && m1 == m.update((b1 + s.x) % 256, s.a)
            &&& op == STA_ABS ==> s1 == long && m1 == m.update(abs, s.a)
            &&& op == STA_ABSX ==> s1 == long && m1 == m.update(abs + s.x, s.a)
            &&& op == STA_ABSY ==> s1 == long && m1 == m.update(abs + s.y, s.a)
            &&& op == STA_INDX ==> s1 == short && m1 == m.update(m[zx] + 256 * m[(zx + 1) % 256], s.a)
            &&& op == STA_INDY ==> s1 == short && m1 == m.update(
                (m[b1] + 256 * m[(b1 + 1) % 256] + s.y) % 0x10000,
                s.a,
            )
            &&& op == STX_ZP ==> s1 == short && m1 == m.update(b1, s.x)
            &&& op == STX_ZPY ==> s1 == short && m1 == m.update((b1 + s.y) % 256, s.x)
            &&& op == STX_ABS ==> s1 == long && m1 == m.update(abs, s.x)
            &&& op == STY_ZP ==> s1 == short && m1 == m.update(b1, s.y)
            &&& op == STY_ZPX ==> s1 == short && m1 == m.update((b1 + s.x) % 256, s.y)
            &&& op == STY_ABS ==> s1 == long && m1 == m.update(abs, s.y)
        }),
{
    lemma_step_unfold(s, m);
}

/// JMP ($nnnn) jumps to the address stored at the pointer p = b1 + 256 * b2, the
/// high byte being read from the same page as the low one: from
/// 256 * (p / 256) + (p + 1) mod 256.
pub proof fn lemma_step_jmp_indirect(s: CpuState, m: Seq<u8>)
    requires
        !s.halted,
        s.pc + 3 <= 0xFFFF,
        m.len() == 0x10000,
        m[s.pc as int] == JMP_IND,
        m[s.pc + 1] + 256 * m[s.pc + 2] < 0xFFFF,
    ensures
        can_step(s, m),
        ({
            let p = m[s.pc + 1] + 256 * m[s.pc + 2];
            step_spec(s, m) == (
                CpuState { pc: (m[p] + 256 * m[256 * (p / 256) + (p + 1) % 256]) as u16, ..s },
                m,
            )
        }),
{
    lemma_step_unfold(s, m);
}

/// ORA, AND, EOR, ADC and SBC #$nn combine A with the operand byte v:
/// ORA, AND and EOR give the bitwise or, and, exclusive or; ADC gives
/// A' + 256 * C' = A + v + C, with V set exactly when the signed sum leaves
/// -128..127; SBC gives A' = (A - v - (1 - C)) mod 256, with C' set exactly when
/// A >= v + 1 - C (no borrow) and V set exactly when the signed difference
/// leaves -128..127. Z and N follow A'; X, Y, SP and memory are unchanged and
/// the program counter moves past both bytes.
pub proof fn lemma_step_accumulate_immediate(s: CpuState, m: Seq<u8>)
    requires
        !s.halted,
        s.pc + 2 <= 0xFFFF,
        m.len() == 0x10000,
        m[s.pc as int] == ORA_IMM || m[s.pc as int] == AND_IMM || m[s.pc as int] == EOR_IMM
            || m[s.pc as int] == ADC_IMM || m[s.pc as int] == SBC_IMM,
    ensures
        can_step(s, m),
        ({
            let (s1, m1) = step_spec(s, m);
            let op = m[s.pc as int];
            let v = m[s.pc + 1];
            let c: int = if s.status.c { 1 } else { 0 };
            let c1: int = if s1.status.c { 1 } else { 0 };
            let sa: int = if s.a < 128 { s.a as int } else { s.a - 256 };
            let sv: int = if v < 128 { v as int } else { v - 256 };
            &&& op == ORA_IMM ==> s1.a == s.a | v && s1.status.c == s.status.c && s1.status.v
                == s.status.v
            &&& op == AND_IMM ==> s1.a == s.a & v && s1.status.c == s.status.c && s1.status.v
                == s.status.v
            &&& op == EOR_IMM ==> s1.a == s.a ^ v && s1.status.c == s.status.c && s1.status.v
                == s.status.v
            &&& op == ADC_IMM ==> s1.a + 256 * c1 == s.a + v + c && s1.status.v == !(-128 <= sa + sv
                + c <= 127)
            &&& op == SBC_IMM ==> s1.a == (s.a - v - (1 - c)) % 256 && s1.status.c == (s.a >= v
                + 1 - c) && s1.status.v == !(-128 <= sa - sv - (1 - c) <= 127)
            &&& s1.status.z == (s1.a == 0)
            &&& s1.status.n == (s1.a >= 128)
            &&& s1.status.i == s.status.i && s1.status.d == s.status.d
            &&& s1.x == s.x && s1.y == s.y && s1.sp == s.sp && s1.pc == s.pc + 2 && !s1.halted
            &&& m1 == m
        }),
{
    let op = m[s.pc as int];
    if op == ORA_IMM {
        lemma_step_data(s, m, Instruction { op: Op::Ora, mode: Mode::Immediate });
    } else if op == AND_IMM {
        lemma_step_data(s, m, Instruction { op: Op::And, mode: Mode::Immediate });
    } else if op == EOR_IMM {
        lemma_step_data(s, m, Instruction { op: Op::Eor, mode: Mode::Immediate });
    } else if op == ADC_IMM {
        lemma_step_data(s, m, Instruction { op: Op::Adc, mode: Mode::Immediate });
        lemma_adc_sum(CpuState { pc: (s.pc + 2) as u16, ..s }, m[s.pc + 1]);
    } else {
        lemma_step_data(s, m, Instruction { op: Op::Sbc, mode: Mode::Immediate });
        lemma_sbc_difference(CpuState { pc: (s.pc + 2) as u16, ..s }, m[s.pc + 1]);
    }
}

/// INC and DEC $nn add or subtract one, modulo 256, at the zero-page address in
/// the operand byte, set Z and N from the new byte and change no register but
/// the program counter.
pub proof fn lemma_step_inc_dec(s: CpuState, m: Seq<u8>)
    requires
        !s.halted,
        s.pc + 2 <= 0xFFFF,
        m.len() == 0x10000,
        m[s.pc as int] == INC_ZP || m[s.pc as int] == DEC_ZP,
    ensures
        can_step(s, m),
        ({
            let (s1, m1) = step_spec(s, m);
            let addr = m[s.pc + 1] as int;
            let r: int = if m[s.pc as int] == INC_ZP {
                (m[addr] + 1) % 256
            } else {
                (m[addr] + 255) % 256
            };
            &&& m1 == m.update(addr, r as u8)
            &&& s1.status.z == (r == 0) && s1.status.n == (r >= 128)
            &&& s1.status.c == s.status.c && s1.status.v == s.status.v
            &&& s1.a == s.a && s1.x == s.x && s1.y == s.y && s1.sp == s.sp && s1.pc == s.pc + 2
        }),
{
    if m[s.pc as int] == INC_ZP {
        lemma_step_data(s, m, Instruction { op: Op::Inc, mode: Mode::ZeroPage });
    } else {
        lemma_step_data(s, m, Instruction { op: Op::Dec, mode: Mode::ZeroPage });
    }
}

/// BIT $nn sets Z exactly when A AND the byte at the operand address is zero,
/// and copies bit 7 of that byte to N and bit 6 to V; A is unchanged.
pub proof fn lemma_step_bit(s: CpuState, m: Seq<u8>)
    requires
        !s.halted,
        s.pc + 2 <= 0xFFFF,
        m.len() == 0x10000,
        m[s.pc as int] == BIT_ZP,
    ensures
        can_step(s, m),
        ({
            let (s1, m1) = step_spec(s, m);
            let v = m[m[s.pc + 1] as int];
            &&& s1.status.z == (s.a & v == 0)
            &&& s1.status.n == (v >= 128)
            &&& s1.status.v == ((v / 64) % 2 == 1)
            &&& s1.status.c == s.status.c
            &&& s1.a == s.a && s1.x == s.x && s1.y == s.y && s1.sp == s.sp && s1.pc == s.pc + 2
            &&& m1 == m
        }),
{
    lemma_step_data(s, m, Instruction { op: Op::Bit, mode: Mode::ZeroPage });
}

/// The one-byte register instructions: INX, INY, DEX and DEY count X or Y up
/// or down modulo 256; TAX, TAY, TXA, TYA and TSX copy a register; each of
/// these sets Z and N from the new value. TXS copies X to SP and leaves the
/// flags. CLC, SEC, CLI, SEI, CLD, SED and CLV clear or set one flag, NOP does
/// nothing. The program counter moves past the opcode; memory is unchanged.
pub proof fn lemma_step_register_instructions(s: CpuState, m: Seq<u8>)
    requires
        !s.halted,
        s.pc + 1 <= 0xFFFF,
        m.len() == 0x10000,
        can_step(s, m),
    ensures
        ({
            let (s1, m1) = step_spec(s, m);
            let op = m[s.pc as int];
            let next = CpuState { pc: (s.pc + 1) as u16, ..s };
            let nz = |v: int| s1.status.z == (v == 0) && s1.status.n == (v >= 128);
            &&& op == INX ==> s1 == CpuState { x: ((s.x + 1) % 256) as u8, status: s1.status, ..next }
                && nz((s.x + 1) % 256) && m1 == m
            &&& op == INY ==> s1 == CpuState { y: ((s.y + 1) % 256) as u8, status: s1.status, ..next }
                && nz((s.y + 1) % 256) && m1 == m
            &&& op == DEX ==> s1 == CpuState { x: ((s.x + 255) % 256) as u8, status: s1.status, ..next }
                && nz((s.x + 255) % 256) && m1 == m
            &&& op == DEY ==> s1 == CpuState { y: ((s.y + 255) % 256) as u8, status: s1.status, ..next }
                && nz((s.y + 255) % 256) && m1 == m
            &&& op == TAX ==> s1 == CpuState { x: s.a, status: s1.status, ..next } && nz(s.a as int)
                && m1 == m
            &&& op == TAY ==> s1 == CpuState { y: s.a, status: s1.status, ..next } && nz(s.a as int)
                && m1 == m
            &&& op == TXA ==> s1 == CpuState { a: s.x, status: s1.status, ..next } && nz(s.x as int)
                && m1 == m
            &&& op == TYA ==> s1 == CpuState { a: s.y, status: s1.status, ..next } && nz(s.y as int)
                && m1 == m
            &&& op == TSX ==> s1 == CpuState { x: s.sp, status: s1.status, ..next } && nz(s.sp as int)
                && m1 == m
            &&& op == TXS ==> s1 == CpuState { sp: s.x, ..next } && m1 == m
            &&& op == CLC ==> s1 == CpuState { status: StatusRegister { c: false, ..s.status }, ..next }
                && m1 == m
            &&& op == SEC ==> s1 == CpuState { status: StatusRegister { c: true, ..s.status }, ..next }
                && m1 == m
            &&& op == CLI ==> s1 == CpuState { status: StatusRegister { i: false, ..s.status }, ..next }
                && m1 == m
            &&& op == SEI ==> s1 == CpuState { status: StatusRegister { i: true, ..s.status }, ..next }
                && m1 == m
            &&& op == CLD ==> s1 == CpuState { status: StatusRegister { d: false, ..s.status }, ..next }
                && m1 == m
            &&& op == SED ==> s1 == CpuState { status: StatusRegister { d: true, ..s.status }, ..next }
                && m1 == m
            &&& op == CLV ==> s1 == CpuState { status: StatusRegister { v: false, ..s.status }, ..next }
                && m1 == m
            &&& op == NOP ==> s1 == next && m1 == m
        }),
{
    let op = m[s.pc as int];
    if op == INX || op == INY || op == DEX || op == DEY || op == TAX || op == TAY || op == TXA
        || op == TYA || op == TSX || op == TXS || op == CLC || op == SEC || op == CLI || op == SEI
        || op == CLD || op == SED || op == CLV || op == NOP {
        let ins = instruction_of(op)->0;
        lemma_step_register(s, m, ins);
    }
}

} // verus!
