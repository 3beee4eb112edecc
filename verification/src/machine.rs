use vstd::prelude::*;
use crate::isa::{instruction_of, Instruction, Mode, Op};
use crate::register::{status_byte, status_of_byte, StatusRegister};

verus! {

/// The registers of the processor and whether it has halted.
pub struct CpuState {
    pub a: u8,
    pub x: u8,
    pub y: u8,
    pub pc: u16,
    pub sp: u8,
    pub status: StatusRegister,
    pub halted: bool,
}

// ----- Bytes and words -----

/// Whether the sign bit (bit 7) of a byte is set.
pub open spec fn negative(v: u8) -> bool {
    v >= 0x80
}

/// The little-endian 16-bit word at `addr` and `addr + 1`.
pub open spec fn word(m: Seq<u8>, addr: int) -> int {
    m[addr] + 256 * m[addr + 1]
}

/// A byte read as a two's-complement signed number.
pub open spec fn signed(b: u8) -> int {
    if b < 0x80 { b as int } else { b - 256 }
}

/// The status register with Z and N set from `v`.
pub open spec fn with_nz(s: StatusRegister, v: u8) -> StatusRegister {
    StatusRegister { z: v == 0, n: negative(v), ..s }
}

// ----- The stack, in page 1 -----

/// The address of the stack slot that `sp` points to.
pub open spec fn stack_addr(sp: u8) -> int {
    0x100 + sp
}

/// The stack pointer after a push.
pub open spec fn sp_after_push(sp: u8) -> u8 {
    ((sp + 255) % 256) as u8
}

/// The stack pointer after a pull.
pub open spec fn sp_after_pull(sp: u8) -> u8 {
    ((sp + 1) % 256) as u8
}

// ----- Addressing -----

/// The address an instruction in `mode` works on, where `pc` is the address of
/// the byte after the opcode. For the immediate and relative modes it is that
/// byte itself.
pub open spec fn effective_addr(mode: Mode, pc: int, x: u8, y: u8, m: Seq<u8>) -> int {
    match mode {
        Mode::ZeroPage => m[pc] as int,
        Mode::ZeroPageX => (m[pc] + x) % 256,
        Mode::ZeroPageY => (m[pc] + y) % 256,
        Mode::Absolute => word(m, pc),
        Mode::AbsoluteX => word(m, pc) + x,
        Mode::AbsoluteY => word(m, pc) + y,
        Mode::Indirect => {
            // the high byte of the target comes from the same page as the low byte
            let p = word(m, pc);
            m[p] + 256 * m[p - p % 256 + (p + 1) % 256]
        },
        Mode::IndirectX => {
            let z = (m[pc] + x) % 256;
            m[z] + 256 * m[(z + 1) % 256]
        },
        Mode::IndirectY => {
            let z = m[pc] as int;
            (m[z] + 256 * m[(z + 1) % 256] + y) % 0x10000
        },
        _ => pc,
    }
}

/// How far the program counter moves past the opcode's successor before the
/// operation runs: the length of the operand, except for JMP and JSR, which
/// set it themselves.
pub open spec fn pc_advance(ins: Instruction) -> int {
    match ins.mode {
        Mode::Implied | Mode::Accumulator | Mode::Indirect => 0,
        Mode::Absolute | Mode::AbsoluteX | Mode::AbsoluteY => if ins.op is Jmp || ins.op is Jsr {
            0
        } else {
            2
        },
        _ => 1,
    }
}

/// Whether the modes that read a 16-bit operand do so.
pub open spec fn reads_word(mode: Mode) -> bool {
    mode is Absolute || mode is AbsoluteX || mode is AbsoluteY || mode is Indirect
}

/// The 16-bit address arithmetic of an instruction stays within 16 bits, `pc`
/// being the address of the byte after the opcode.
pub open spec fn fits(ins: Instruction, pc: int, x: u8, y: u8, m: Seq<u8>) -> bool {
    &&& pc + pc_advance(ins) <= 0xFFFF
    &&& reads_word(ins.mode) ==> pc + 1 <= 0xFFFF
    &&& ins.op is Jsr ==> pc + pc_advance(ins) + 1 <= 0xFFFF
    &&& ins.mode is AbsoluteX ==> word(m, pc) + x <= 0xFFFF
    &&& ins.mode is AbsoluteY ==> word(m, pc) + y <= 0xFFFF
    &&& ins.mode is Indirect ==> word(m, pc) < 0xFFFF
}

// ----- Operations -----

/// ADC: A + operand + C.
pub open spec fn adc_spec(s: CpuState, v: u8) -> CpuState {
    let sum = s.a + v + (if s.status.c { 1int } else { 0 });
    let r = (sum % 256) as u8;
    CpuState {
        a: r,
        status: StatusRegister {
            c: sum > 0xFF,
            v: negative(s.a) == negative(v) && negative(s.a) != negative(r),
            ..with_nz(s.status, r)
        },
        ..s
    }
}

/// SBC: A - operand - (1 - C).
pub open spec fn sbc_spec(s: CpuState, v: u8) -> CpuState {
    let diff = s.a - v - (if s.status.c { 0int } else { 1 });
    let r = (diff % 256) as u8;
    CpuState {
        a: r,
        status: StatusRegister {
            c: diff >= 0,
            v: negative(s.a) != negative(v) && negative(s.a) != negative(r),
            ..with_nz(s.status, r)
        },
        ..s
    }
}

/// The flags after comparing register value `r` with operand `v`.
pub open spec fn compare_spec(s: StatusRegister, r: u8, v: u8) -> StatusRegister {
    StatusRegister { c: r >= v, z: r == v, n: negative(((r - v) % 256) as u8), ..s }
}

/// BIT: Z from A AND operand; N and V copied from bits 7 and 6 of the operand.
pub open spec fn bit_spec(s: StatusRegister, a: u8, v: u8) -> StatusRegister {
    StatusRegister { z: a & v == 0, n: negative(v), v: (v / 64) % 2 == 1, ..s }
}

/// The result and carry of a shift or rotate of `v`, with incoming carry `c`.
pub open spec fn shift_spec(op: Op, v: u8, c: bool) -> (u8, bool) {
    match op {
        Op::Asl => (((2 * v) % 256) as u8, negative(v)),
        Op::Lsr => ((v / 2) as u8, v % 2 == 1),
        Op::Rol => (((2 * v + (if c { 1int } else { 0 })) % 256) as u8, negative(v)),
        _ => ((v / 2 + (if c { 128int } else { 0 })) as u8, v % 2 == 1),
    }
}

/// Whether a branch operation takes its branch.
pub open spec fn branch_taken(op: Op, s: StatusRegister) -> bool {
    match op {
        Op::Bpl => !s.n,
        Op::Bmi => s.n,
        Op::Bvc => !s.v,
        Op::Bvs => s.v,
        Op::Bcc => !s.c,
        Op::Bcs => s.c,
        Op::Bne => !s.z,
        Op::Beq => s.z,
        _ => true,
    }
}

/// Whether `op` is one of the branches.
pub open spec fn is_branch(op: Op) -> bool {
    op is Bpl || op is Bmi || op is Bvc || op is Bvs || op is Bcc || op is Bcs || op is Bne
        || op is Beq || op is Bra
}

/// Pushes `v`: it is stored at the stack slot and the stack pointer moves down.
pub open spec fn push(s: CpuState, m: Seq<u8>, v: u8) -> (CpuState, Seq<u8>) {
    (CpuState { sp: sp_after_push(s.sp), ..s }, m.update(stack_addr(s.sp), v))
}

/// The stack pointer moves up and the byte at the new slot is read.
pub open spec fn pull(s: CpuState, m: Seq<u8>) -> (CpuState, u8) {
    let sp = sp_after_pull(s.sp);
    (CpuState { sp, ..s }, m[stack_addr(sp)])
}

/// Pushes the high and then the low byte of `addr`.
pub open spec fn push_word(s: CpuState, m: Seq<u8>, addr: int) -> (CpuState, Seq<u8>) {
    let (s1, m1) = push(s, m, (addr / 256) as u8);
    push(s1, m1, (addr % 256) as u8)
}

/// Pulls the low and then the high byte of a word.
pub open spec fn pull_word(s: CpuState, m: Seq<u8>) -> (CpuState, int) {
    let (s1, lo) = pull(s, m);
    let (s2, hi) = pull(s1, m);
    (s2, lo + 256 * hi)
}

/// The operations that read or write an operand.
pub open spec fn is_data_op(op: Op) -> bool {
    match op {
        Op::Lda | Op::Ldx | Op::Ldy | Op::Ora | Op::And | Op::Eor | Op::Adc | Op::Sbc
        | Op::CompareA | Op::CompareX | Op::CompareY | Op::Bit | Op::Asl | Op::Lsr | Op::Rol
        | Op::Ror | Op::Inc | Op::Dec | Op::Sta | Op::Stx | Op::Sty => true,
        _ => false,
    }
}

/// The operations on registers and flags alone.
pub open spec fn is_register_op(op: Op) -> bool {
    match op {
        Op::Inx | Op::Iny | Op::Dex | Op::Dey | Op::Tax | Op::Tay | Op::Txa | Op::Tya | Op::Tsx
        | Op::Txs | Op::Clc | Op::Sec | Op::Cli | Op::Sei | Op::Cld | Op::Sed | Op::Clv
        | Op::Nop => true,
        _ => false,
    }
}

/// The effect of a load, logic, arithmetic, compare, shift, increment or store
/// operation in `mode` on address `ea`.
pub open spec fn data_spec(op: Op, mode: Mode, ea: int, s: CpuState, m: Seq<u8>) -> (CpuState, Seq<u8>) {
    let v = if mode is Accumulator { s.a } else { m[ea] };
    match op {
        Op::Lda => (CpuState { a: v, status: with_nz(s.status, v), ..s }, m),
        Op::Ldx => (CpuState { x: v, status: with_nz(s.status, v), ..s }, m),
        Op::Ldy => (CpuState { y: v, status: with_nz(s.status, v), ..s }, m),
        Op::Ora => (CpuState { a: s.a | v, status: with_nz(s.status, s.a | v), ..s }, m),
        Op::And => (CpuState { a: s.a & v, status: with_nz(s.status, s.a & v), ..s }, m),
        Op::Eor => (CpuState { a: s.a ^ v, status: with_nz(s.status, s.a ^ v), ..s }, m),
        Op::Adc => (adc_spec(s, v), m),
        Op::Sbc => (sbc_spec(s, v), m),
        Op::CompareA => (CpuState { status: compare_spec(s.status, s.a, v), ..s }, m),
        Op::CompareX => (CpuState { status: compare_spec(s.status, s.x, v), ..s }, m),
        Op::CompareY => (CpuState { status: compare_spec(s.status, s.y, v), ..s }, m),
        Op::Bit => (CpuState { status: bit_spec(s.status, s.a, v), ..s }, m),
        Op::Asl | Op::Lsr | Op::Rol | Op::Ror => {
            let (r, c) = shift_spec(op, v, s.status.c);
            let status = StatusRegister { c, ..with_nz(s.status, r) };
            if mode is Accumulator {
                (CpuState { a: r, status, ..s }, m)
            } else {
                (CpuState { status, ..s }, m.update(ea, r))
            }
        },
        Op::Inc => {
            let r = ((m[ea] + 1) % 256) as u8;
            (CpuState { status: with_nz(s.status, r), ..s }, m.update(ea, r))
        },
        Op::Dec => {
            let r = ((m[ea] + 255) % 256) as u8;
            (CpuState { status: with_nz(s.status, r), ..s }, m.update(ea, r))
        },
        Op::Sta => (s, m.update(ea, s.a)),
        Op::Stx => (s, m.update(ea, s.x)),
        _ => (s, m.update(ea, s.y)),
    }
}

/// The effect of an operation on registers and flags alone.
pub open spec fn register_spec(op: Op, s: CpuState) -> CpuState {
    match op {
        Op::Inx => {
            let r = ((s.x + 1) % 256) as u8;
            CpuState { x: r, status: with_nz(s.status, r), ..s }
        },
        Op::Iny => {
            let r = ((s.y + 1) % 256) as u8;
            CpuState { y: r, status: with_nz(s.status, r), ..s }
        },
        Op::Dex => {
            let r = ((s.x + 255) % 256) as u8;
            CpuState { x: r, status: with_nz(s.status, r), ..s }
        },
        Op::Dey => {
            let r = ((s.y + 255) % 256) as u8;
            CpuState { y: r, status: with_nz(s.status, r), ..s }
        },
        Op::Tax => CpuState { x: s.a, status: with_nz(s.status, s.a), ..s },
        Op::Tay => CpuState { y: s.a, status: with_nz(s.status, s.a), ..s },
        Op::Txa => CpuState { a: s.x, status: with_nz(s.status, s.x), ..s },
        Op::Tya => CpuState { a: s.y, status: with_nz(s.status, s.y), ..s },
        Op::Tsx => CpuState { x: s.sp, status: with_nz(s.status, s.sp), ..s },
        Op::Txs => CpuState { sp: s.x, ..s },
        Op::Clc => CpuState { status: StatusRegister { c: false, ..s.status }, ..s },
        Op::Sec => CpuState { status: StatusRegister { c: true, ..s.status }, ..s },
        Op::Cli => CpuState { status: StatusRegister { i: false, ..s.status }, ..s },
        Op::Sei => CpuState { status: StatusRegister { i: true, ..s.status }, ..s },
        Op::Cld => CpuState { status: StatusRegister { d: false, ..s.status }, ..s },
        Op::Sed => CpuState { status: StatusRegister { d: true, ..s.status }, ..s },
        Op::Clv => CpuState { status: StatusRegister { v: false, ..s.status }, ..s },
        _ => s,
    }
}

/// The effect of a stack, jump, return, break or branch operation; for a
/// branch, `ea` is the address of its offset byte.
pub open spec fn flow_spec(op: Op, ea: int, s: CpuState, m: Seq<u8>) -> (CpuState, Seq<u8>) {
    match op {
        Op::Pha => push(s, m, s.a),
        Op::Php => push(s, m, status_byte(s.status)),
        Op::Pla => {
            let (s1, v) = pull(s, m);
            (CpuState { a: v, status: with_nz(s1.status, v), ..s1 }, m)
        },
        Op::Plp => {
            let (s1, v) = pull(s, m);
            (CpuState { status: status_of_byte(v), ..s1 }, m)
        },
        Op::Jmp => (CpuState { pc: ea as u16, ..s }, m),
        Op::Jsr => {
            // the return address is that of the last operand byte
            let (s1, m1) = push_word(s, m, s.pc + 1);
            (CpuState { pc: ea as u16, ..s1 }, m1)
        },
        Op::Rts => {
            let (s1, ret) = pull_word(s, m);
            (CpuState { pc: ((ret + 1) % 0x10000) as u16, ..s1 }, m)
        },
        Op::Rti => {
            let (s1, p) = pull(s, m);
            let (s2, ret) = pull_word(s1, m);
            (CpuState { status: status_of_byte(p), pc: ret as u16, ..s2 }, m)
        },
        Op::Brk => {
            // return address = the byte after the opcode; B set on the pushed copy
            let (s1, m1) = push_word(s, m, s.pc as int);
            let (s2, m2) = push(s1, m1, status_byte(StatusRegister { b: true, ..s.status }));
            (
                CpuState {
                    status: StatusRegister { i: true, ..s.status },
                    pc: word(m2, 0xFFFE) as u16,
                    halted: true,
                    ..s2
                },
                m2,
            )
        },
        _ => {
            // the branches
            if branch_taken(op, s.status) {
                (CpuState { pc: ((s.pc + signed(m[ea])) % 0x10000) as u16, ..s }, m)
            } else {
                (s, m)
            }
        },
    }
}

/// The effect of `op` in `mode` on address `ea`, once the program counter has
/// moved past the operand.
pub open spec fn apply(op: Op, mode: Mode, ea: int, s: CpuState, m: Seq<u8>) -> (CpuState, Seq<u8>) {
    if is_data_op(op) {
        data_spec(op, mode, ea, s, m)
    } else if is_register_op(op) {
        (register_spec(op, s), m)
    } else {
        flow_spec(op, ea, s, m)
    }
}

/// Executes `ins`, where `s.pc` is the address of the byte after the opcode.
pub open spec fn perform_spec(ins: Instruction, s: CpuState, m: Seq<u8>) -> (CpuState, Seq<u8>) {
    let ea = effective_addr(ins.mode, s.pc as int, s.x, s.y, m);
    apply(ins.op, ins.mode, ea, CpuState { pc: (s.pc + pc_advance(ins)) as u16, ..s }, m)
}

/// A step from this state is defined: the processor has halted, or the byte at
/// the program counter is an implemented opcode whose address arithmetic stays
/// within 16 bits.
pub open spec fn can_step(s: CpuState, m: Seq<u8>) -> bool {
    s.halted || {
        &&& s.pc < 0xFFFF
        &&& instruction_of(m[s.pc as int]) is Some
        &&& fits(instruction_of(m[s.pc as int])->0, s.pc + 1, s.x, s.y, m)
    }
}

/// One step: nothing once halted; otherwise the instruction at the program
/// counter is fetched, decoded and executed.
#[verifier::opaque]
pub open spec fn step_spec(s: CpuState, m: Seq<u8>) -> (CpuState, Seq<u8>) {
    if s.halted {
        (s, m)
    } else {
        perform_spec(instruction_of(m[s.pc as int])->0, CpuState { pc: (s.pc + 1) as u16, ..s }, m)
    }
}

/// The processor reaches a halt within `n` steps, each of them defined.
pub open spec fn halts_within(s: CpuState, m: Seq<u8>, n: nat) -> bool
    decreases n,
{
    if s.halted {
        true
    } else if n == 0 {
        false
    } else {
        can_step(s, m) && halts_within(step_spec(s, m).0, step_spec(s, m).1, (n - 1) as nat)
    }
}

/// The state after stepping until halted, or after `n` steps.
pub open spec fn run_spec(s: CpuState, m: Seq<u8>, n: nat) -> (CpuState, Seq<u8>)
    decreases n,
{
    if s.halted || n == 0 {
        (s, m)
    } else {
        run_spec(step_spec(s, m).0, step_spec(s, m).1, (n - 1) as nat)
    }
}

/// Running to a halt gives the same state whatever bound it was found within.
pub proof fn lemma_run_unique(s: CpuState, m: Seq<u8>, n1: nat, n2: nat)
    requires
        halts_within(s, m, n1),
        halts_within(s, m, n2),
    ensures
        run_spec(s, m, n1) == run_spec(s, m, n2),
        run_spec(s, m, n1).0.halted,
    decreases n1,
{
    if !s.halted {
        lemma_run_unique(step_spec(s, m).0, step_spec(s, m).1, (n1 - 1) as nat, (n2 - 1) as nat);
    }
}

} // verus!
