use vstd::prelude::*;
use crate::opcodes::{
    BRK, ORA_INDX, ORA_ZP, ASL_ZP, PHP, ORA_IMM, ASL_ACC, ORA_ABS, ASL_ABS, BPL, ORA_INDY,
    ORA_ZPX, ASL_ZPX, CLC, ORA_ABSY, ORA_ABSX, ASL_ABSX, JSR, AND_INDX, BIT_ZP, AND_ZP, ROL_ZP,
    PLP, AND_IMM, ROL_ACC, BIT_ABS, AND_ABS, ROL_ABS, BMI, AND_INDY, AND_ZPX, ROL_ZPX, SEC,
    AND_ABSY, AND_ABSX, ROL_ABSX, RTI, EOR_INDX, EOR_ZP, LSR_ZP, PHA, EOR_IMM, LSR_ACC, JMP_ABS,
    EOR_ABS, LSR_ABS, BVC, EOR_INDY, EOR_ZPX, LSR_ZPX, CLI, EOR_ABSY, EOR_ABSX, LSR_ABSX, RTS,
    ADC_INDX, ADC_ZP, ROR_ZP, PLA, ADC_IMM, ROR_ACC, JMP_IND, ADC_ABS, ROR_ABS, BVS, ADC_INDY,
    ADC_ZPX, ROR_ZPX, SEI, ADC_ABSY, ADC_ABSX, ROR_ABSX, BRA, STA_INDX, STY_ZP, STA_ZP, STX_ZP,
    DEY, BIT_IMM, TXA, STY_ABS, STA_ABS, STX_ABS, BCC, STA_INDY, STY_ZPX, STA_ZPX, STX_ZPY, TYA,
    STA_ABSY, TXS, STA_ABSX, LDY_IMM, LDA_INDX, LDX_IMM, LDY_ZP, LDA_ZP, LDX_ZP, TAY, LDA_IMM,
    TAX, LDY_ABS, LDA_ABS, LDX_ABS, BCS, LDA_INDY, LDY_ZPX, LDA_ZPX, LDX_ZPY, CLV, LDA_ABSY,
    TSX, LDY_ABSX, LDA_ABSX, LDX_ABSY, CPY_IMM, CMP_INDX, CPY_ZP, CMP_ZP, DEC_ZP, INY, CMP_IMM,
    DEX, CPY_ABS, CMP_ABS, DEC_ABS, BNE, CMP_INDY, CMP_ZPX, DEC_ZPX, CLD, CMP_ABSY, CMP_ABSX,
    DEC_ABSX, CPX_IMM, SBC_INDX, CPX_ZP, SBC_ZP, INC_ZP, INX, SBC_IMM, NOP, CPX_ABS, SBC_ABS,
    INC_ABS, BEQ, SBC_INDY, SBC_ZPX, INC_ZPX, SED, SBC_ABSY, SBC_ABSX, INC_ABSX,
};

verus! {

/// Where an instruction finds its operand.
#[derive(Debug, Clone, Copy, PartialEq, Eq, Structural)]
pub enum Mode {
    /// No operand
    Implied,
    /// The accumulator A
    Accumulator,
    /// The byte after the opcode
    Immediate,
    /// A zero-page address in the byte after the opcode
    ZeroPage,
    /// A zero-page address plus X, wrapping within the zero page
    ZeroPageX,
    /// A zero-page address plus Y, wrapping within the zero page
    ZeroPageY,
    /// A 16-bit little-endian address after the opcode
    Absolute,
    /// A 16-bit address plus X
    AbsoluteX,
    /// A 16-bit address plus Y
    AbsoluteY,
    /// The 16-bit address stored at a 16-bit pointer (JMP only)
    Indirect,
    /// The 16-bit address stored in the zero page at the operand plus X
    IndirectX,
    /// The 16-bit address stored in the zero page at the operand, plus Y
    IndirectY,
    /// A signed 8-bit branch offset
    Relative,
}

/// The operation an opcode performs.
#[derive(Debug, Clone, Copy, PartialEq, Eq, Structural)]
pub enum Op {
    /// Force break: push the return address and status, then halt
    Brk,
    /// Bitwise OR into A
    Ora,
    /// Arithmetic shift left
    Asl,
    /// Push the status register
    Php,
    /// Branch if N is clear
    Bpl,
    /// Clear C
    Clc,
    /// Jump to subroutine
    Jsr,
    /// Bitwise AND into A
    And,
    /// Test bits of memory against A
    Bit,
    /// Rotate left through C
    Rol,
    /// Pull the status register
    Plp,
    /// Branch if N is set
    Bmi,
    /// Set C
    Sec,
    /// Return from interrupt
    Rti,
    /// Bitwise exclusive OR into A
    Eor,
    /// Logical shift right
    Lsr,
    /// Push A
    Pha,
    /// Jump
    Jmp,
    /// Branch if V is clear
    Bvc,
    /// Clear I
    Cli,
    /// Return from subroutine
    Rts,
    /// Add with carry
    Adc,
    /// Rotate right through C
    Ror,
    /// Pull A
    Pla,
    /// Branch if V is set
    Bvs,
    /// Set I
    Sei,
    /// Branch always
    Bra,
    /// Store A
    Sta,
    /// Store Y
    Sty,
    /// Store X
    Stx,
    /// Decrement Y
    Dey,
    /// Transfer X to A
    Txa,
    /// Branch if C is clear
    Bcc,
    /// Transfer Y to A
    Tya,
    /// Transfer X to SP
    Txs,
    /// Load Y
    Ldy,
    /// Load A
    Lda,
    /// Load X
    Ldx,
    /// Transfer A to Y
    Tay,
    /// Transfer A to X
    Tax,
    /// Branch if C is set
    Bcs,
    /// Clear V
    Clv,
    /// Transfer SP to X
    Tsx,
    /// Compare Y with memory
    CompareY,
    /// Compare A with memory
    CompareA,
    /// Decrement memory
    Dec,
    /// Increment Y
    Iny,
    /// Decrement X
    Dex,
    /// Branch if Z is clear
    Bne,
    /// Clear D
    Cld,
    /// Compare X with memory
    CompareX,
    /// Subtract with borrow
    Sbc,
    /// Increment memory
    Inc,
    /// Increment X
    Inx,
    /// No operation
    Nop,
    /// Branch if Z is set
    Beq,
    /// Set D
    Sed,
}

/// A decoded opcode: an operation and its addressing mode.
#[derive(Debug, Clone, Copy, PartialEq, Eq, Structural)]
pub struct Instruction {
    pub op: Op,
    pub mode: Mode,
}

/// The instruction that an opcode byte stands for, or `None` for a byte that
/// is not an implemented instruction.
pub open spec fn instruction_of(opcode: u8) -> Option<Instruction> {
    match opcode {
        BRK => Some(Instruction { op: Op::Brk, mode: Mode::Implied }),
        ORA_INDX => Some(Instruction { op: Op::Ora, mode: Mode::IndirectX }),
        ORA_ZP => Some(Instruction { op: Op::Ora, mode: Mode::ZeroPage }),
        ASL_ZP => Some(Instruction { op: Op::Asl, mode: Mode::ZeroPage }),
        PHP => Some(Instruction { op: Op::Php, mode: Mode::Implied }),
        ORA_IMM => Some(Instruction { op: Op::Ora, mode: Mode::Immediate }),
        ASL_ACC => Some(Instruction { op: Op::Asl, mode: Mode::Accumulator }),
        ORA_ABS => Some(Instruction { op: Op::Ora, mode: Mode::Absolute }),
        ASL_ABS => Some(Instruction { op: Op::Asl, mode: Mode::Absolute }),
        BPL => Some(Instruction { op: Op::Bpl, mode: Mode::Relative }),
        ORA_INDY => Some(Instruction { op: Op::Ora, mode: Mode::IndirectY }),
        ORA_ZPX => Some(Instruction { op: Op::Ora, mode: Mode::ZeroPageX }),
        ASL_ZPX => Some(Instruction { op: Op::Asl, mode: Mode::ZeroPageX }),
        CLC => Some(Instruction { op: Op::Clc, mode: Mode::Implied }),
        ORA_ABSY => Some(Instruction { op: Op::Ora, mode: Mode::AbsoluteY }),
        ORA_ABSX => Some(Instruction { op: Op::Ora, mode: Mode::AbsoluteX }),
        ASL_ABSX => Some(Instruction { op: Op::Asl, mode: Mode::AbsoluteX }),
        JSR => Some(Instruction { op: Op::Jsr, mode: Mode::Absolute }),
        AND_INDX => Some(Instruction { op: Op::And, mode: Mode::IndirectX }),
        BIT_ZP => Some(Instruction { op: Op::Bit, mode: Mode::ZeroPage }),
        AND_ZP => Some(Instruction { op: Op::And, mode: Mode::ZeroPage }),
        ROL_ZP => Some(Instruction { op: Op::Rol, mode: Mode::ZeroPage }),
        PLP => Some(Instruction { op: Op::Plp, mode: Mode::Implied }),
        AND_IMM => Some(Instruction { op: Op::And, mode: Mode::Immediate }),
        ROL_ACC => Some(Instruction { op: Op::Rol, mode: Mode::Accumulator }),
        BIT_ABS => Some(Instruction { op: Op::Bit, mode: Mode::Absolute }),
        AND_ABS => Some(Instruction { op: Op::And, mode: Mode::Absolute }),
        ROL_ABS => Some(Instruction { op: Op::Rol, mode: Mode::Absolute }),
        BMI => Some(Instruction { op: Op::Bmi, mode: Mode::Relative }),
        AND_INDY => Some(Instruction { op: Op::And, mode: Mode::IndirectY }),
        AND_ZPX => Some(Instruction { op: Op::And, mode: Mode::ZeroPageX }),
        ROL_ZPX => Some(Instruction { op: Op::Rol, mode: Mode::ZeroPageX }),
        SEC => Some(Instruction { op: Op::Sec, mode: Mode::Implied }),
        AND_ABSY => Some(Instruction { op: Op::And, mode: Mode::AbsoluteY }),
        AND_ABSX => Some(Instruction { op: Op::And, mode: Mode::AbsoluteX }),
        ROL_ABSX => Some(Instruction { op: Op::Rol, mode: Mode::AbsoluteX }),
        RTI => Some(Instruction { op: Op::Rti, mode: Mode::Implied }),
        EOR_INDX => Some(Instruction { op: Op::Eor, mode: Mode::IndirectX }),
        EOR_ZP => Some(Instruction { op: Op::Eor, mode: Mode::ZeroPage }),
        LSR_ZP => Some(Instruction { op: Op::Lsr, mode: Mode::ZeroPage }),
        PHA => Some(Instruction { op: Op::Pha, mode: Mode::Implied }),
        EOR_IMM => Some(Instruction { op: Op::Eor, mode: Mode::Immediate }),
        LSR_ACC => Some(Instruction { op: Op::Lsr, mode: Mode::Accumulator }),
        JMP_ABS => Some(Instruction { op: Op::Jmp, mode: Mode::Absolute }),
        EOR_ABS => Some(Instruction { op: Op::Eor, mode: Mode::Absolute }),
        LSR_ABS => Some(Instruction { op: Op::Lsr, mode: Mode::Absolute }),
        BVC => Some(Instruction { op: Op::Bvc, mode: Mode::Relative }),
        EOR_INDY => Some(Instruction { op: Op::Eor, mode: Mode::IndirectY }),
        EOR_ZPX => Some(Instruction { op: Op::Eor, mode: Mode::ZeroPageX }),
        LSR_ZPX => Some(Instruction { op: Op::Lsr, mode: Mode::ZeroPageX }),
        CLI => Some(Instruction { op: Op::Cli, mode: Mode::Implied }),
        EOR_ABSY => Some(Instruction { op: Op::Eor, mode: Mode::AbsoluteY }),
        EOR_ABSX => Some(Instruction { op: Op::Eor, mode: Mode::AbsoluteX }),
        LSR_ABSX => Some(Instruction { op: Op::Lsr, mode: Mode::AbsoluteX }),
        RTS => Some(Instruction { op: Op::Rts, mode: Mode::Implied }),
        ADC_INDX => Some(Instruction { op: Op::Adc, mode: Mode::IndirectX }),
        ADC_ZP => Some(Instruction { op: Op::Adc, mode: Mode::ZeroPage }),
        ROR_ZP => Some(Instruction { op: Op::Ror, mode: Mode::ZeroPage }),
        PLA => Some(Instruction { op: Op::Pla, mode: Mode::Implied }),
        ADC_IMM => Some(Instruction { op: Op::Adc, mode: Mode::Immediate }),
        ROR_ACC => Some(Instruction { op: Op::Ror, mode: Mode::Accumulator }),
        JMP_IND => Some(Instruction { op: Op::Jmp, mode: Mode::Indirect }),
        ADC_ABS => Some(Instruction { op: Op::Adc, mode: Mode::Absolute }),
        ROR_ABS => Some(Instruction { op: Op::Ror, mode: Mode::Absolute }),
        BVS => Some(Instruction { op: Op::Bvs, mode: Mode::Relative }),
        ADC_INDY => Some(Instruction { op: Op::Adc, mode: Mode::IndirectY }),
        ADC_ZPX => Some(Instruction { op: Op::Adc, mode: Mode::ZeroPageX }),
        ROR_ZPX => Some(Instruction { op: Op::Ror, mode: Mode::ZeroPageX }),
        SEI => Some(Instruction { op: Op::Sei, mode: Mode::Implied }),
        ADC_ABSY => Some(Instruction { op: Op::Adc, mode: Mode::AbsoluteY }),
        ADC_ABSX => Some(Instruction { op: Op::Adc, mode: Mode::AbsoluteX }),
        ROR_ABSX => Some(Instruction { op: Op::Ror, mode: Mode::AbsoluteX }),
        BRA => Some(Instruction { op: Op::Bra, mode: Mode::Relative }),
        STA_INDX => Some(Instruction { op: Op::Sta, mode: Mode::IndirectX }),
        STY_ZP => Some(Instruction { op: Op::Sty, mode: Mode::ZeroPage }),
        STA_ZP => Some(Instruction { op: Op::Sta, mode: Mode::ZeroPage }),
        STX_ZP => Some(Instruction { op: Op::Stx, mode: Mode::ZeroPage }),
        DEY => Some(Instruction { op: Op::Dey, mode: Mode::Implied }),
        BIT_IMM => Some(Instruction { op: Op::Bit, mode: Mode::Immediate }),
        TXA => Some(Instruction { op: Op::Txa, mode: Mode::Implied }),
        STY_ABS => Some(Instruction { op: Op::Sty, mode: Mode::Absolute }),
        STA_ABS => Some(Instruction { op: Op::Sta, mode: Mode::Absolute }),
        STX_ABS => Some(Instruction { op: Op::Stx, mode: Mode::Absolute }),
        BCC => Some(Instruction { op: Op::Bcc, mode: Mode::Relative }),
        STA_INDY => Some(Instruction { op: Op::Sta, mode: Mode::IndirectY }),
        STY_ZPX => Some(Instruction { op: Op::Sty, mode: Mode::ZeroPageX }),
        STA_ZPX => Some(Instruction { op: Op::Sta, mode: Mode::ZeroPageX }),
        STX_ZPY => Some(Instruction { op: Op::Stx, mode: Mode::ZeroPageY }),
        TYA => Some(Instruction { op: Op::Tya, mode: Mode::Implied }),
        STA_ABSY => Some(Instruction { op: Op::Sta, mode: Mode::AbsoluteY }),
        TXS => Some(Instruction { op: Op::Txs, mode: Mode::Implied }),
        STA_ABSX => Some(Instruction { op: Op::Sta, mode: Mode::AbsoluteX }),
        LDY_IMM => Some(Instruction { op: Op::Ldy, mode: Mode::Immediate }),
        LDA_INDX => Some(Instruction { op: Op::Lda, mode: Mode::IndirectX }),
        LDX_IMM => Some(Instruction { op: Op::Ldx, mode: Mode::Immediate }),
        LDY_ZP => Some(Instruction { op: Op::Ldy, mode: Mode::ZeroPage }),
        LDA_ZP => Some(Instruction { op: Op::Lda, mode: Mode::ZeroPage }),
        LDX_ZP => Some(Instruction { op: Op::Ldx, mode: Mode::ZeroPage }),
        TAY => Some(Instruction { op: Op::Tay, mode: Mode::Implied }),
        LDA_IMM => Some(Instruction { op: Op::Lda, mode: Mode::Immediate }),
        TAX => Some(Instruction { op: Op::Tax, mode: Mode::Implied }),
        LDY_ABS => Some(Instruction { op: Op::Ldy, mode: Mode::Absolute }),
        LDA_ABS => Some(Instruction { op: Op::Lda, mode: Mode::Absolute }),
        LDX_ABS => Some(Instruction { op: Op::Ldx, mode: Mode::Absolute }),
        BCS => Some(Instruction { op: Op::Bcs, mode: Mode::Relative }),
        LDA_INDY => Some(Instruction { op: Op::Lda, mode: Mode::IndirectY }),
        LDY_ZPX => Some(Instruction { op: Op::Ldy, mode: Mode::ZeroPageX }),
        LDA_ZPX => Some(Instruction { op: Op::Lda, mode: Mode::ZeroPageX }),
        LDX_ZPY => Some(Instruction { op: Op::Ldx, mode: Mode::ZeroPageY }),
        CLV => Some(Instruction { op: Op::Clv, mode: Mode::Implied }),
        LDA_ABSY => Some(Instruction { op: Op::Lda, mode: Mode::AbsoluteY }),
        TSX => Some(Instruction { op: Op::Tsx, mode: Mode::Implied }),
        LDY_ABSX => Some(Instruction { op: Op::Ldy, mode: Mode::AbsoluteX }),
        LDA_ABSX => Some(Instruction { op: Op::Lda, mode: Mode::AbsoluteX }),
        LDX_ABSY => Some(Instruction { op: Op::Ldx, mode: Mode::AbsoluteY }),
        CPY_IMM => Some(Instruction { op: Op::CompareY, mode: Mode::Immediate }),
        CMP_INDX => Some(Instruction { op: Op::CompareA, mode: Mode::IndirectX }),
        CPY_ZP => Some(Instruction { op: Op::CompareY, mode: Mode::ZeroPage }),
        CMP_ZP => Some(Instruction { op: Op::CompareA, mode: Mode::ZeroPage }),
        DEC_ZP => Some(Instruction { op: Op::Dec, mode: Mode::ZeroPage }),
        INY => Some(Instruction { op: Op::Iny, mode: Mode::Implied }),
        CMP_IMM => Some(Instruction { op: Op::CompareA, mode: Mode::Immediate }),
        DEX => Some(Instruction { op: Op::Dex, mode: Mode::Implied }),
        CPY_ABS => Some(Instruction { op: Op::CompareY, mode: Mode::Absolute }),
        CMP_ABS => Some(Instruction { op: Op::CompareA, mode: Mode::Absolute }),
        DEC_ABS => Some(Instruction { op: Op::Dec, mode: Mode::Absolute }),
        BNE => Some(Instruction { op: Op::Bne, mode: Mode::Relative }),
        CMP_INDY => Some(Instruction { op: Op::CompareA, mode: Mode::IndirectY }),
        CMP_ZPX => Some(Instruction { op: Op::CompareA, mode: Mode::ZeroPageX }),
        DEC_ZPX => Some(Instruction { op: Op::Dec, mode: Mode::ZeroPageX }),
        CLD => Some(Instruction { op: Op::Cld, mode: Mode::Implied }),
        CMP_ABSY => Some(Instruction { op: Op::CompareA, mode: Mode::AbsoluteY }),
        CMP_ABSX => Some(Instruction { op: Op::CompareA, mode: Mode::AbsoluteX }),
        DEC_ABSX => Some(Instruction { op: Op::Dec, mode: Mode::AbsoluteX }),
        CPX_IMM => Some(Instruction { op: Op::CompareX, mode: Mode::Immediate }),
        SBC_INDX => Some(Instruction { op: Op::Sbc, mode: Mode::IndirectX }),
        CPX_ZP => Some(Instruction { op: Op::CompareX, mode: Mode::ZeroPage }),
        SBC_ZP => Some(Instruction { op: Op::Sbc, mode: Mode::ZeroPage }),
        INC_ZP => Some(Instruction { op: Op::Inc, mode: Mode::ZeroPage }),
        INX => Some(Instruction { op: Op::Inx, mode: Mode::Implied }),
        SBC_IMM => Some(Instruction { op: Op::Sbc, mode: Mode::Immediate }),
        NOP => Some(Instruction { op: Op::Nop, mode: Mode::Implied }),
        CPX_ABS => Some(Instruction { op: Op::CompareX, mode: Mode::Absolute }),
        SBC_ABS => Some(Instruction { op: Op::Sbc, mode: Mode::Absolute }),
        INC_ABS => Some(Instruction { op: Op::Inc, mode: Mode::Absolute }),
        BEQ => Some(Instruction { op: Op::Beq, mode: Mode::Relative }),
        SBC_INDY => Some(Instruction { op: Op::Sbc, mode: Mode::IndirectY }),
        SBC_ZPX => Some(Instruction { op: Op::Sbc, mode: Mode::ZeroPageX }),
        INC_ZPX => Some(Instruction { op: Op::Inc, mode: Mode::ZeroPageX }),
        SED => Some(Instruction { op: Op::Sed, mode: Mode::Implied }),
        SBC_ABSY => Some(Instruction { op: Op::Sbc, mode: Mode::AbsoluteY }),
        SBC_ABSX => Some(Instruction { op: Op::Sbc, mode: Mode::AbsoluteX }),
        INC_ABSX => Some(Instruction { op: Op::Inc, mode: Mode::AbsoluteX }),
        _ => None,
    }
}

/// Decodes an opcode byte: its instruction, or `None` for a byte that is not
/// an implemented instruction.
pub fn decode(opcode: u8) -> (ins: Option<Instruction>)
    ensures
        ins == instruction_of(opcode),
{
    match opcode {
        BRK => Some(Instruction { op: Op::Brk, mode: Mode::Implied }),
        ORA_INDX => Some(Instruction { op: Op::Ora, mode: Mode::IndirectX }),
        ORA_ZP => Some(Instruction { op: Op::Ora, mode: Mode::ZeroPage }),
        ASL_ZP => Some(Instruction { op: Op::Asl, mode: Mode::ZeroPage }),
        PHP => Some(Instruction { op: Op::Php, mode: Mode::Implied }),
        ORA_IMM => Some(Instruction { op: Op::Ora, mode: Mode::Immediate }),
        ASL_ACC => Some(Instruction { op: Op::Asl, mode: Mode::Accumulator }),
        ORA_ABS => Some(Instruction { op: Op::Ora, mode: Mode::Absolute }),
        ASL_ABS => Some(Instruction { op: Op::Asl, mode: Mode::Absolute }),
        BPL => Some(Instruction { op: Op::Bpl, mode: Mode::Relative }),
        ORA_INDY => Some(Instruction { op: Op::Ora, mode: Mode::IndirectY }),
        ORA_ZPX => Some(Instruction { op: Op::Ora, mode: Mode::ZeroPageX }),
        ASL_ZPX => Some(Instruction { op: Op::Asl, mode: Mode::ZeroPageX }),
        CLC => Some(Instruction { op: Op::Clc, mode: Mode::Implied }),
        ORA_ABSY => Some(Instruction { op: Op::Ora, mode: Mode::AbsoluteY }),
        ORA_ABSX => Some(Instruction { op: Op::Ora, mode: Mode::AbsoluteX }),
        ASL_ABSX => Some(Instruction { op: Op::Asl, mode: Mode::AbsoluteX }),
        JSR => Some(Instruction { op: Op::Jsr, mode: Mode::Absolute }),
        AND_INDX => Some(Instruction { op: Op::And, mode: Mode::IndirectX }),
        BIT_ZP => Some(Instruction { op: Op::Bit, mode: Mode::ZeroPage }),
        AND_ZP => Some(Instruction { op: Op::And, mode: Mode::ZeroPage }),
        ROL_ZP => Some(Instruction { op: Op::Rol, mode: Mode::ZeroPage }),
        PLP => Some(Instruction { op: Op::Plp, mode: Mode::Implied }),
        AND_IMM => Some(Instruction { op: Op::And, mode: Mode::Immediate }),
        ROL_ACC => Some(Instruction { op: Op::Rol, mode: Mode::Accumulator }),
        BIT_ABS => Some(Instruction { op: Op::Bit, mode: Mode::Absolute }),
        AND_ABS => Some(Instruction { op: Op::And, mode: Mode::Absolute }),
        ROL_ABS => Some(Instruction { op: Op::Rol, mode: Mode::Absolute }),
        BMI => Some(Instruction { op: Op::Bmi, mode: Mode::Relative }),
        AND_INDY => Some(Instruction { op: Op::And, mode: Mode::IndirectY }),
        AND_ZPX => Some(Instruction { op: Op::And, mode: Mode::ZeroPageX }),
        ROL_ZPX => Some(Instruction { op: Op::Rol, mode: Mode::ZeroPageX }),
        SEC => Some(Instruction { op: Op::Sec, mode: Mode::Implied }),
        AND_ABSY => Some(Instruction { op: Op::And, mode: Mode::AbsoluteY }),
        AND_ABSX => Some(Instruction { op: Op::And, mode: Mode::AbsoluteX }),
        ROL_ABSX => Some(Instruction { op: Op::Rol, mode: Mode::AbsoluteX }),
        RTI => Some(Instruction { op: Op::Rti, mode: Mode::Implied }),
        EOR_INDX => Some(Instruction { op: Op::Eor, mode: Mode::IndirectX }),
        EOR_ZP => Some(Instruction { op: Op::Eor, mode: Mode::ZeroPage }),
        LSR_ZP => Some(Instruction { op: Op::Lsr, mode: Mode::ZeroPage }),
        PHA => Some(Instruction { op: Op::Pha, mode: Mode::Implied }),
        EOR_IMM => Some(Instruction { op: Op::Eor, mode: Mode::Immediate }),
        LSR_ACC => Some(Instruction { op: Op::Lsr, mode: Mode::Accumulator }),
        JMP_ABS => Some(Instruction { op: Op::Jmp, mode: Mode::Absolute }),
        EOR_ABS => Some(Instruction { op: Op::Eor, mode: Mode::Absolute }),
        LSR_ABS => Some(Instruction { op: Op::Lsr, mode: Mode::Absolute }),
        BVC => Some(Instruction { op: Op::Bvc, mode: Mode::Relative }),
        EOR_INDY => Some(Instruction { op: Op::Eor, mode: Mode::IndirectY }),
        EOR_ZPX => Some(Instruction { op: Op::Eor, mode: Mode::ZeroPageX }),
        LSR_ZPX => Some(Instruction { op: Op::Lsr, mode: Mode::ZeroPageX }),
        CLI => Some(Instruction { op: Op::Cli, mode: Mode::Implied }),
        EOR_ABSY => Some(Instruction { op: Op::Eor, mode: Mode::AbsoluteY }),
        EOR_ABSX => Some(Instruction { op: Op::Eor, mode: Mode::AbsoluteX }),
        LSR_ABSX => Some(Instruction { op: Op::Lsr, mode: Mode::AbsoluteX }),
        RTS => Some(Instruction { op: Op::Rts, mode: Mode::Implied }),
        ADC_INDX => Some(Instruction { op: Op::Adc, mode: Mode::IndirectX }),
        ADC_ZP => Some(Instruction { op: Op::Adc, mode: Mode::ZeroPage }),
        ROR_ZP => Some(Instruction { op: Op::Ror, mode: Mode::ZeroPage }),
        PLA => Some(Instruction { op: Op::Pla, mode: Mode::Implied }),
        ADC_IMM => Some(Instruction { op: Op::Adc, mode: Mode::Immediate }),
        ROR_ACC => Some(Instruction { op: Op::Ror, mode: Mode::Accumulator }),
        JMP_IND => Some(Instruction { op: Op::Jmp, mode: Mode::Indirect }),
        ADC_ABS => Some(Instruction { op: Op::Adc, mode: Mode::Absolute }),
        ROR_ABS => Some(Instruction { op: Op::Ror, mode: Mode::Absolute }),
        BVS => Some(Instruction { op: Op::Bvs, mode: Mode::Relative }),
        ADC_INDY => Some(Instruction { op: Op::Adc, mode: Mode::IndirectY }),
        ADC_ZPX => Some(Instruction { op: Op::Adc, mode: Mode::ZeroPageX }),
        ROR_ZPX => Some(Instruction { op: Op::Ror, mode: Mode::ZeroPageX }),
        SEI => Some(Instruction { op: Op::Sei, mode: Mode::Implied }),
        ADC_ABSY => Some(Instruction { op: Op::Adc, mode: Mode::AbsoluteY }),
        ADC_ABSX => Some(Instruction { op: Op::Adc, mode: Mode::AbsoluteX }),
        ROR_ABSX => Some(Instruction { op: Op::Ror, mode: Mode::AbsoluteX }),
        BRA => Some(Instruction { op: Op::Bra, mode: Mode::Relative }),
        STA_INDX => Some(Instruction { op: Op::Sta, mode: Mode::IndirectX }),
        STY_ZP => Some(Instruction { op: Op::Sty, mode: Mode::ZeroPage }),
        STA_ZP => Some(Instruction { op: Op::Sta, mode: Mode::ZeroPage }),
        STX_ZP => Some(Instruction { op: Op::Stx, mode: Mode::ZeroPage }),
        DEY => Some(Instruction { op: Op::Dey, mode: Mode::Implied }),
        BIT_IMM => Some(Instruction { op: Op::Bit, mode: Mode::Immediate }),
        TXA => Some(Instruction { op: Op::Txa, mode: Mode::Implied }),
        STY_ABS => Some(Instruction { op: Op::Sty, mode: Mode::Absolute }),
        STA_ABS => Some(Instruction { op: Op::Sta, mode: Mode::Absolute }),
        STX_ABS => Some(Instruction { op: Op::Stx, mode: Mode::Absolute }),
        BCC => Some(Instruction { op: Op::Bcc, mode: Mode::Relative }),
        STA_INDY => Some(Instruction { op: Op::Sta, mode: Mode::IndirectY }),
        STY_ZPX => Some(Instruction { op: Op::Sty, mode: Mode::ZeroPageX }),
        STA_ZPX => Some(Instruction { op: Op::Sta, mode: Mode::ZeroPageX }),
        STX_ZPY => Some(Instruction { op: Op::Stx, mode: Mode::ZeroPageY }),
        TYA => Some(Instruction { op: Op::Tya, mode: Mode::Implied }),
        STA_ABSY => Some(Instruction { op: Op::Sta, mode: Mode::AbsoluteY }),
        TXS => Some(Instruction { op: Op::Txs, mode: Mode::Implied }),
        STA_ABSX => Some(Instruction { op: Op::Sta, mode: Mode::AbsoluteX }),
        LDY_IMM => Some(Instruction { op: Op::Ldy, mode: Mode::Immediate }),
        LDA_INDX => Some(Instruction { op: Op::Lda, mode: Mode::IndirectX }),
        LDX_IMM => Some(Instruction { op: Op::Ldx, mode: Mode::Immediate }),
        LDY_ZP => Some(Instruction { op: Op::Ldy, mode: Mode::ZeroPage }),
        LDA_ZP => Some(Instruction { op: Op::Lda, mode: Mode::ZeroPage }),
        LDX_ZP => Some(Instruction { op: Op::Ldx, mode: Mode::ZeroPage }),
        TAY => Some(Instruction { op: Op::Tay, mode: Mode::Implied }),
        LDA_IMM => Some(Instruction { op: Op::Lda, mode: Mode::Immediate }),
        TAX => Some(Instruction { op: Op::Tax, mode: Mode::Implied }),
        LDY_ABS => Some(Instruction { op: Op::Ldy, mode: Mode::Absolute }),
        LDA_ABS => Some(Instruction { op: Op::Lda, mode: Mode::Absolute }),
        LDX_ABS => Some(Instruction { op: Op::Ldx, mode: Mode::Absolute }),
        BCS => Some(Instruction { op: Op::Bcs, mode: Mode::Relative }),
        LDA_INDY => Some(Instruction { op: Op::Lda, mode: Mode::IndirectY }),
        LDY_ZPX => Some(Instruction { op: Op::Ldy, mode: Mode::ZeroPageX }),
        LDA_ZPX => Some(Instruction { op: Op::Lda, mode: Mode::ZeroPageX }),
        LDX_ZPY => Some(Instruction { op: Op::Ldx, mode: Mode::ZeroPageY }),
        CLV => Some(Instruction { op: Op::Clv, mode: Mode::Implied }),
        LDA_ABSY => Some(Instruction { op: Op::Lda, mode: Mode::AbsoluteY }),
        TSX => Some(Instruction { op: Op::Tsx, mode: Mode::Implied }),
        LDY_ABSX => Some(Instruction { op: Op::Ldy, mode: Mode::AbsoluteX }),
        LDA_ABSX => Some(Instruction { op: Op::Lda, mode: Mode::AbsoluteX }),
        LDX_ABSY => Some(Instruction { op: Op::Ldx, mode: Mode::AbsoluteY }),
        CPY_IMM => Some(Instruction { op: Op::CompareY, mode: Mode::Immediate }),
        CMP_INDX => Some(Instruction { op: Op::CompareA, mode: Mode::IndirectX }),
        CPY_ZP => Some(Instruction { op: Op::CompareY, mode: Mode::ZeroPage }),
        CMP_ZP => Some(Instruction { op: Op::CompareA, mode: Mode::ZeroPage }),
        DEC_ZP => Some(Instruction { op: Op::Dec, mode: Mode::ZeroPage }),
        INY => Some(Instruction { op: Op::Iny, mode: Mode::Implied }),
        CMP_IMM => Some(Instruction { op: Op::CompareA, mode: Mode::Immediate }),
        DEX => Some(Instruction { op: Op::Dex, mode: Mode::Implied }),
        CPY_ABS => Some(Instruction { op: Op::CompareY, mode: Mode::Absolute }),
        CMP_ABS => Some(Instruction { op: Op::CompareA, mode: Mode::Absolute }),
        DEC_ABS => Some(Instruction { op: Op::Dec, mode: Mode::Absolute }),
        BNE => Some(Instruction { op: Op::Bne, mode: Mode::Relative }),
        CMP_INDY => Some(Instruction { op: Op::CompareA, mode: Mode::IndirectY }),
        CMP_ZPX => Some(Instruction { op: Op::CompareA, mode: Mode::ZeroPageX }),
        DEC_ZPX => Some(Instruction { op: Op::Dec, mode: Mode::ZeroPageX }),
        CLD => Some(Instruction { op: Op::Cld, mode: Mode::Implied }),
        CMP_ABSY => Some(Instruction { op: Op::CompareA, mode: Mode::AbsoluteY }),
        CMP_ABSX => Some(Instruction { op: Op::CompareA, mode: Mode::AbsoluteX }),
        DEC_ABSX => Some(Instruction { op: Op::Dec, mode: Mode::AbsoluteX }),
        CPX_IMM => Some(Instruction { op: Op::CompareX, mode: Mode::Immediate }),
        SBC_INDX => Some(Instruction { op: Op::Sbc, mode: Mode::IndirectX }),
        CPX_ZP => Some(Instruction { op: Op::CompareX, mode: Mode::ZeroPage }),
        SBC_ZP => Some(Instruction { op: Op::Sbc, mode: Mode::ZeroPage }),
        INC_ZP => Some(Instruction { op: Op::Inc, mode: Mode::ZeroPage }),
        INX => Some(Instruction { op: Op::Inx, mode: Mode::Implied }),
        SBC_IMM => Some(Instruction { op: Op::Sbc, mode: Mode::Immediate }),
        NOP => Some(Instruction { op: Op::Nop, mode: Mode::Implied }),
        CPX_ABS => Some(Instruction { op: Op::CompareX, mode: Mode::Absolute }),
        SBC_ABS => Some(Instruction { op: Op::Sbc, mode: Mode::Absolute }),
        INC_ABS => Some(Instruction { op: Op::Inc, mode: Mode::Absolute }),
        BEQ => Some(Instruction { op: Op::Beq, mode: Mode::Relative }),
        SBC_INDY => Some(Instruction { op: Op::Sbc, mode: Mode::IndirectY }),
        SBC_ZPX => Some(Instruction { op: Op::Sbc, mode: Mode::ZeroPageX }),
        INC_ZPX => Some(Instruction { op: Op::Inc, mode: Mode::ZeroPageX }),
        SED => Some(Instruction { op: Op::Sed, mode: Mode::Implied }),
        SBC_ABSY => Some(Instruction { op: Op::Sbc, mode: Mode::AbsoluteY }),
        SBC_ABSX => Some(Instruction { op: Op::Sbc, mode: Mode::AbsoluteX }),
        INC_ABSX => Some(Instruction { op: Op::Inc, mode: Mode::AbsoluteX }),
        _ => None,
    }
}

} // verus!
