use vstd::prelude::*;
use crate::isa::{instruction_of, Instruction, Mode, Op};
use crate::machine::{
    adc_spec, apply, branch_taken, can_step, halts_within, is_branch, perform_spec, run_spec,
    sbc_spec, shift_spec, signed, step_spec, with_nz, CpuState,
};
use crate::opcodes::{BRK, JSR, PHA, PHP, PLA, PLP, RTS};
use crate::register::{
    flag_value, lemma_from_byte_as_byte, status_byte, status_of_byte, StatusRegister,
};

verus! {

/// A halted processor does not change when stepped.
pub proof fn lemma_step_when_halted(s: CpuState, m: Seq<u8>)
    requires
        s.halted,
    ensures
        can_step(s, m),
        step_spec(s, m) == (s, m),
{
    reveal(step_spec);
}

/// Running a halted processor changes nothing.
pub proof fn lemma_run_when_halted(s: CpuState, m: Seq<u8>, n: nat)
    requires
        s.halted,
    ensures
        halts_within(s, m, n),
        run_spec(s, m, n) == (s, m),
{
}

/// Steps through an implied-mode operation `op` whose opcode is at the program
/// counter: its effect is `flow_spec` (or `register_spec`) on the state with
/// the program counter past the opcode.
proof fn lemma_step_implied(s: CpuState, m: Seq<u8>, op: Op)
    requires
        !s.halted,
        s.pc + 1 <= 0xFFFF,
        instruction_of(m[s.pc as int]) == Some(Instruction { op, mode: Mode::Implied }),
    ensures
        can_step(s, m),
        step_spec(s, m) == apply(op, Mode::Implied, s.pc + 1, CpuState { pc: (s.pc + 1) as u16, ..s }, m),
{
    reveal(step_spec);
}

/// BRK pushes the address after its opcode (high byte first) and the status
/// with B set, sets the interrupt-disable flag, loads the program counter from
/// the vector at 0xFFFE and halts.
pub proof fn lemma_step_brk(s: CpuState, m: Seq<u8>)
    requires
        !s.halted,
        s.pc + 1 <= 0xFFFF,
        m.len() == 0x10000,
        m[s.pc as int] == BRK,
    ensures
        can_step(s, m),
        ({
            let ret = s.pc + 1;
            let sp1 = ((s.sp + 255) % 256) as u8;
            let sp2 = ((sp1 + 255) % 256) as u8;
            let m1 = m.update(0x100 + s.sp, (ret / 256) as u8).update(
                0x100 + sp1,
                (ret % 256) as u8,
            ).update(
                0x100 + sp2,
                status_byte(StatusRegister { b: true, ..s.status }),
            );
            step_spec(s, m) == (
                CpuState {
                    pc: (m1[0xFFFE] + 256 * m1[0xFFFF]) as u16,
                    sp: ((sp2 + 255) % 256) as u8,
                    status: StatusRegister { i: true, ..s.status },
                    halted: true,
                    ..s
                },
                m1,
            )
        }),
{
    assert(instruction_of(m[s.pc as int]) == Some(Instruction { op: Op::Brk, mode: Mode::Implied }));
    lemma_step_implied(s, m, Op::Brk);
}

/// PHA stores A at the stack slot and moves the stack pointer down.
pub proof fn lemma_step_pha(s: CpuState, m: Seq<u8>)
    requires
        !s.halted,
        s.pc + 1 <= 0xFFFF,
        m.len() == 0x10000,
        m[s.pc as int] == PHA,
    ensures
        can_step(s, m),
        step_spec(s, m) == (
            CpuState { pc: (s.pc + 1) as u16, sp: ((s.sp + 255) % 256) as u8, ..s },
            m.update(0x100 + s.sp, s.a),
        ),
{
    assert(instruction_of(m[s.pc as int]) == Some(Instruction { op: Op::Pha, mode: Mode::Implied }));
    lemma_step_implied(s, m, Op::Pha);
}

/// PHP stores the encoded status at the stack slot and moves the stack pointer down.
pub proof fn lemma_step_php(s: CpuState, m: Seq<u8>)
    requires
        !s.halted,
        s.pc + 1 <= 0xFFFF,
        m.len() == 0x10000,
        m[s.pc as int] == PHP,
    ensures
        can_step(s, m),
        step_spec(s, m) == (
            CpuState { pc: (s.pc + 1) as u16, sp: ((s.sp + 255) % 256) as u8, ..s },
            m.update(0x100 + s.sp, status_byte(s.status)),
        ),
{
    assert(instruction_of(m[s.pc as int]) == Some(Instruction { op: Op::Php, mode: Mode::Implied }));
    lemma_step_implied(s, m, Op::Php);
}

/// PLA moves the stack pointer up, loads A from the new slot and sets Z and N
/// from it.
pub proof fn lemma_step_pla(s: CpuState, m: Seq<u8>)
    requires
        !s.halted,
        s.pc + 1 <= 0xFFFF,
        m.len() == 0x10000,
        m[s.pc as int] == PLA,
    ensures
        can_step(s, m),
        step_spec(s, m) == (
            CpuState {
                pc: (s.pc + 1) as u16,
                sp: ((s.sp + 1) % 256) as u8,
                a: m[(0x100 + ((s.sp + 1) % 256) as u8)],
                status: with_nz(s.status, m[(0x100 + ((s.sp + 1) % 256) as u8)]),
                ..s
            },
            m,
        ),
{
    assert(instruction_of(m[s.pc as int]) == Some(Instruction { op: Op::Pla, mode: Mode::Implied }));
    lemma_step_implied(s, m, Op::Pla);
}

/// PLP moves the stack pointer up and decodes the status from the new slot.
pub proof fn lemma_step_plp(s: CpuState, m: Seq<u8>)
    requires
        !s.halted,
        s.pc + 1 <= 0xFFFF,
        m.len() == 0x10000,
        m[s.pc as int] == PLP,
    ensures
        can_step(s, m),
        step_spec(s, m) == (
            CpuState {
                pc: (s.pc + 1) as u16,
                sp: ((s.sp + 1) % 256) as u8,
                status: status_of_byte(m[(0x100 + ((s.sp + 1) % 256) as u8)]),
                ..s
            },
            m,
        ),
{
    assert(instruction_of(m[s.pc as int]) == Some(Instruction { op: Op::Plp, mode: Mode::Implied }));
    lemma_step_implied(s, m, Op::Plp);
}

/// RTS pulls the low and then the high byte of the return address and jumps to
/// the address after it.
pub proof fn lemma_step_rts(s: CpuState, m: Seq<u8>)
    requires
        !s.halted,
        s.pc + 1 <= 0xFFFF,
        m.len() == 0x10000,
        m[s.pc as int] == RTS,
    ensures
        can_step(s, m),
        ({
            let sp1 = ((s.sp + 1) % 256) as u8;
            let sp2 = ((sp1 + 1) % 256) as u8;
            step_spec(s, m) == (
                CpuState {
                    pc: ((m[(0x100 + sp1)] + 256 * m[(0x100 + sp2)] + 1) % 0x10000) as u16,
                    sp: sp2,
                    ..s
                },
                m,
            )
        }),
{
    assert(instruction_of(m[s.pc as int]) == Some(Instruction { op: Op::Rts, mode: Mode::Implied }));
    lemma_step_implied(s, m, Op::Rts);
}

/// JSR pushes the address of its last operand byte, high byte first, and jumps
/// to its operand.
pub proof fn lemma_step_jsr(s: CpuState, m: Seq<u8>)
    requires
        !s.halted,
        s.pc + 3 <= 0xFFFF,
        m.len() == 0x10000,
        m[s.pc as int] == JSR,
    ensures
        can_step(s, m),
        ({
            let ret = s.pc + 2;
            let sp1 = ((s.sp + 255) % 256) as u8;
            step_spec(s, m) == (
                CpuState {
                    pc: (m[s.pc + 1] + 256 * m[s.pc + 2]) as u16,
                    sp: ((sp1 + 255) % 256) as u8,
                    ..s
                },
                m.update(0x100 + s.sp, (ret / 256) as u8).update(0x100 + sp1, (ret % 256) as u8),
            )
        }),
{
    let ins = Instruction { op: Op::Jsr, mode: Mode::Absolute };
    assert(instruction_of(m[s.pc as int]) == Some(ins));
    reveal(step_spec);
    let s0 = CpuState { pc: (s.pc + 1) as u16, ..s };
    assert(step_spec(s, m) == perform_spec(ins, s0, m));
    assert(perform_spec(ins, s0, m) == apply(
        Op::Jsr,
        Mode::Absolute,
        m[s.pc + 1] + 256 * m[s.pc + 2],
        s0,
        m,
    ));
}

/// A branch moves the program counter past its two bytes and, when its
/// condition holds, on by the signed offset in its second byte, wrapping within
/// 16 bits; nothing else changes.
pub proof fn lemma_step_branch(s: CpuState, m: Seq<u8>)
    requires
        !s.halted,
        s.pc + 2 <= 0xFFFF,
        m.len() == 0x10000,
        instruction_of(m[s.pc as int]) is Some,
        is_branch((instruction_of(m[s.pc as int])->0).op),
    ensures
        can_step(s, m),
        ({
            let op = (instruction_of(m[s.pc as int])->0).op;
            let next = s.pc + 2;
            step_spec(s, m) == (
                CpuState {
                    pc: if branch_taken(op, s.status) {
                        ((next + signed(m[s.pc + 1])) % 0x10000) as u16
                    } else {
                        next as u16
                    },
                    ..s
                },
                m,
            )
        }),
{
    let ins = instruction_of(m[s.pc as int])->0;
    assert(ins.mode == Mode::Relative);
    reveal(step_spec);
}

/// PHA followed by PLA leaves A and the stack pointer as they were, with the
/// program counter past both instructions and Z and N set from A.
pub proof fn lemma_pha_pla(s: CpuState, m: Seq<u8>)
    requires
        !s.halted,
        s.pc + 2 <= 0xFFFF,
        m.len() == 0x10000,
        m[s.pc as int] == PHA,
        m[s.pc + 1] == PLA,
        s.pc + 1 != (0x100 + s.sp),
    ensures
        can_step(s, m),
        can_step(step_spec(s, m).0, step_spec(s, m).1),
        ({
            let (s1, m1) = step_spec(s, m);
            let (s2, m2) = step_spec(s1, m1);
            s2 == CpuState { pc: (s.pc + 2) as u16, status: with_nz(s.status, s.a), ..s }
        }),
{
    lemma_step_pha(s, m);
    let (s1, m1) = step_spec(s, m);
    lemma_step_pla(s1, m1);
}

/// PHP followed by PLP leaves the status register and the stack pointer as
/// they were.
pub proof fn lemma_php_plp(s: CpuState, m: Seq<u8>)
    requires
        !s.halted,
        s.pc + 2 <= 0xFFFF,
        m.len() == 0x10000,
        m[s.pc as int] == PHP,
        m[s.pc + 1] == PLP,
        s.pc + 1 != (0x100 + s.sp),
    ensures
        can_step(s, m),
        can_step(step_spec(s, m).0, step_spec(s, m).1),
        ({
            let (s1, m1) = step_spec(s, m);
            let (s2, m2) = step_spec(s1, m1);
            s2 == CpuState { pc: (s.pc + 2) as u16, ..s }
        }),
{
    lemma_from_byte_as_byte(s.status);
    lemma_step_php(s, m);
    let (s1, m1) = step_spec(s, m);
    lemma_step_plp(s1, m1);
}

/// JSR to a subroutine that starts with RTS comes back to the instruction after
/// the JSR, with the stack pointer and every other register as they were.
pub proof fn lemma_jsr_rts(s: CpuState, m: Seq<u8>)
    requires
        !s.halted,
        s.pc + 3 <= 0xFFFF,
        m.len() == 0x10000,
        m[s.pc as int] == JSR,
        (m[s.pc + 1] + 256 * m[s.pc + 2]) < 0xFFFF,
        m[(m[s.pc + 1] + 256 * m[s.pc + 2])] == RTS,
        (m[s.pc + 1] + 256 * m[s.pc + 2]) != (0x100 + s.sp),
        (m[s.pc + 1] + 256 * m[s.pc + 2]) != (0x100 + ((s.sp + 255) % 256) as u8),
    ensures
        can_step(s, m),
        can_step(step_spec(s, m).0, step_spec(s, m).1),
        step_spec(s, m).0.pc == (m[s.pc + 1] + 256 * m[s.pc + 2]),
        ({
            let (s1, m1) = step_spec(s, m);
            let (s2, m2) = step_spec(s1, m1);
            s2 == CpuState { pc: (s.pc + 3) as u16, ..s }
        }),
{
    lemma_step_jsr(s, m);
    let (s1, m1) = step_spec(s, m);
    lemma_step_rts(s1, m1);
    let ret = s.pc + 2;
    assert((ret / 256) * 256 + ret % 256 == ret);
}

/// ADC adds: the new A plus 256 times the new carry is A + operand + carry in,
/// and V is set exactly when the signed sum does not fit in a signed byte.
pub proof fn lemma_adc_sum(s: CpuState, v: u8)
    ensures
        adc_spec(s, v).a + 256 * flag_value(adc_spec(s, v).status.c) == s.a + v + flag_value(s.status.c),
        adc_spec(s, v).status.v == !(-128 <= signed(s.a) + signed(v) + flag_value(s.status.c) <= 127),
        adc_spec(s, v).status.z == (adc_spec(s, v).a == 0),
{
}

/// SBC subtracts with borrow: the new A is A - operand - (1 - carry) modulo 256,
/// the carry stays set exactly when nothing was borrowed, and V is set exactly
/// when the signed difference does not fit in a signed byte.
pub proof fn lemma_sbc_difference(s: CpuState, v: u8)
    ensures
        sbc_spec(s, v).a == (s.a - v - (1 - flag_value(s.status.c))) % 256,
        sbc_spec(s, v).status.c == (s.a >= v + 1 - flag_value(s.status.c)),
        sbc_spec(s, v).status.v == !(-128 <= signed(s.a) - signed(v) - (1 - flag_value(s.status.c))
            <= 127),
{
}

/// SBC of an operand is ADC of its complement.
pub proof fn lemma_sbc_is_adc_of_complement(s: CpuState, v: u8)
    ensures
        sbc_spec(s, v) == adc_spec(s, (255 - v) as u8),
{
}

/// ROR undoes ROL: rotating left and then right gives back the byte and the
/// carry.
pub proof fn lemma_ror_undoes_rol(v: u8, c: bool)
    ensures
        ({
            let (r, c1) = shift_spec(Op::Rol, v, c);
            shift_spec(Op::Ror, r, c1) == (v, c)
        }),
{
}

/// ROL undoes ROR.
pub proof fn lemma_rol_undoes_ror(v: u8, c: bool)
    ensures
        ({
            let (r, c1) = shift_spec(Op::Ror, v, c);
            shift_spec(Op::Rol, r, c1) == (v, c)
        }),
{
}

/// ASL and LSR move the bit shifted out into the carry: ASL gives
/// 2 * v = result + 256 * carry, LSR gives v = 2 * result + carry.
pub proof fn lemma_shifts(v: u8, c: bool)
    ensures
        2 * v == shift_spec(Op::Asl, v, c).0 + 256 * flag_value(shift_spec(Op::Asl, v, c).1),
        v == 2 * shift_spec(Op::Lsr, v, c).0 + flag_value(shift_spec(Op::Lsr, v, c).1),
{
}

} // verus!
