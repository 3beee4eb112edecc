use vstd::prelude::*;
use crate::isa::{instruction_of, Instruction, Mode, Op};

verus! {

// The 6502 opcode byte has the form aaabbbcc: `cc` selects a group, `aaa` the
// operation within the group and `bbb` the addressing mode.

/// The operation that bits 7-5 select among the opcodes whose low two bits are 01.
pub open spec fn group_one_op(aaa: int) -> Op {
    if aaa == 0 {
        Op::Ora
    } else if aaa == 1 {
        Op::And
    } else if aaa == 2 {
        Op::Eor
    } else if aaa == 3 {
        Op::Adc
    } else if aaa == 4 {
        Op::Sta
    } else if aaa == 5 {
        Op::Lda
    } else if aaa == 6 {
        Op::CompareA
    } else {
        Op::Sbc
    }
}

/// The addressing mode that bits 4-2 select among the opcodes whose low two
/// bits are 01.
pub open spec fn group_one_mode(bbb: int) -> Mode {
    if bbb == 0 {
        Mode::IndirectX
    } else if bbb == 1 {
        Mode::ZeroPage
    } else if bbb == 2 {
        Mode::Immediate
    } else if bbb == 3 {
        Mode::Absolute
    } else if bbb == 4 {
        Mode::IndirectY
    } else if bbb == 5 {
        Mode::ZeroPageX
    } else if bbb == 6 {
        Mode::AbsoluteY
    } else {
        Mode::AbsoluteX
    }
}

/// Every opcode whose low two bits are 01 decodes to the operation named by
/// its bits 7-5 (ORA, AND, EOR, ADC, STA, LDA, CMP, SBC) in the mode named by its
/// bits 4-2 (($nn,X), $nn, #$nn, $nnnn, ($nn),Y, $nn,X, $nnnn,Y, $nnnn,X), except
/// $89, which would be STA #$nn and is BIT #$nn instead.
pub proof fn lemma_decode_group_one(x: u8)
    requires
        x % 4 == 1,
        x != 0x89,
    ensures
        instruction_of(x) == Some(
            Instruction { op: group_one_op(x as int / 32), mode: group_one_mode((x as int / 4) % 8) },
        ),
{
    assert(x == 1 || x == 5 || x == 9 || x == 13 || x == 17 || x == 21 || x == 25 || x == 29
        || x == 33 || x == 37 || x == 41 || x == 45 || x == 49 || x == 53 || x == 57 || x ==
        61 || x == 65 || x == 69 || x == 73 || x == 77 || x == 81 || x == 85 || x == 89 || x
        == 93 || x == 97 || x == 101 || x == 105 || x == 109 || x == 113 || x == 117 || x ==
        121 || x == 125 || x == 129 || x == 133 || x == 141 || x == 145 || x == 149 || x ==
        153 || x == 157 || x == 161 || x == 165 || x == 169 || x == 173 || x == 177 || x ==
        181 || x == 185 || x == 189 || x == 193 || x == 197 || x == 201 || x == 205 || x ==
        209 || x == 213 || x == 217 || x == 221 || x == 225 || x == 229 || x == 233 || x ==
        237 || x == 241 || x == 245 || x == 249 || x == 253) by (bit_vector)
        requires
            x % 4 == 1,
            x != 0x89,
    ;
}

/// The operation that bits 7-5 select among the opcodes whose low two bits are 10.
pub open spec fn group_two_op(aaa: int) -> Op {
    if aaa == 0 {
        Op::Asl
    } else if aaa == 1 {
        Op::Rol
    } else if aaa == 2 {
        Op::Lsr
    } else if aaa == 3 {
        Op::Ror
    } else if aaa == 4 {
        Op::Stx
    } else if aaa == 5 {
        Op::Ldx
    } else if aaa == 6 {
        Op::Dec
    } else {
        Op::Inc
    }
}

/// The operation that bits 7-5 select among the opcodes whose low two bits are
/// 00 and that take a memory operand.
pub open spec fn group_zero_op(aaa: int) -> Op {
    if aaa == 1 {
        Op::Bit
    } else if aaa == 2 || aaa == 3 {
        Op::Jmp
    } else if aaa == 4 {
        Op::Sty
    } else if aaa == 5 {
        Op::Ldy
    } else if aaa == 6 {
        Op::CompareY
    } else {
        Op::CompareX
    }
}

/// The addressing mode that an odd value of bits 4-2 selects outside the group
/// whose low two bits are 01: $nn, $nnnn, $nn indexed and $nnnn indexed, the
/// index being Y when `by_y`, else X.
pub open spec fn indexed_mode(bbb: int, by_y: bool) -> Mode {
    if bbb == 1 {
        Mode::ZeroPage
    } else if bbb == 3 {
        Mode::Absolute
    } else if bbb == 5 {
        if by_y { Mode::ZeroPageY } else { Mode::ZeroPageX }
    } else {
        if by_y { Mode::AbsoluteY } else { Mode::AbsoluteX }
    }
}

/// The opcodes whose low two bits are 10 and whose bits 4-2 are odd are the
/// memory forms of ASL, ROL, LSR, ROR, STX, LDX, DEC and INC (bits 7-5), in
/// the mode named by bits 4-2; STX and LDX index by Y. $9E (STX $nnnn,Y) is
/// not implemented.
pub proof fn lemma_decode_group_two(x: u8)
    requires
        x % 4 == 2,
        (x / 4) % 2 == 1,
        x != 0x9E,
    ensures
        instruction_of(x) == Some(
            Instruction {
                op: group_two_op(x as int / 32),
                mode: indexed_mode((x as int / 4) % 8, x / 32 == 4 || x / 32 == 5),
            },
        ),
{
    assert(x == 6 || x == 14 || x == 22 || x == 30 || x == 38 || x == 46 || x == 54 || x ==
        62 || x == 70 || x == 78 || x == 86 || x == 94 || x == 102 || x == 110 || x == 118
        || x == 126 || x == 134 || x == 142 || x == 150 || x == 166 || x == 174 || x == 182
        || x == 190 || x == 198 || x == 206 || x == 214 || x == 222 || x == 230 || x == 238
        || x == 246 || x == 254) by (bit_vector)
        requires
            x % 4 == 2,
            (x / 4) % 2 == 1,
            x != 0x9E,
    ;
}

/// BIT ($24, $2C), JMP ($4C), STY ($84, $8C, $94), LDY ($A4, $AC, $B4, $BC), CPY
/// ($C4, $CC) and CPX ($E4, $EC): the operation is named by bits 7-5 and the
/// mode by bits 4-2, indexing by X.
pub proof fn lemma_decode_group_zero(x: u8)
    requires
        x % 4 == 0,
        (x / 4) % 2 == 1,
        ({
            let aaa = x / 32;
            let bbb = (x / 4) % 8;
            (aaa == 1 && bbb <= 3) || (aaa == 2 && bbb == 3) || (aaa == 4 && bbb <= 5) || aaa == 5
                || (aaa >= 6 && bbb <= 3)
        }),
    ensures
        instruction_of(x) == Some(
            Instruction {
                op: group_zero_op(x as int / 32),
                mode: indexed_mode((x as int / 4) % 8, false),
            },
        ),
{
    assert(x == 36 || x == 44 || x == 76 || x == 132 || x == 140 || x == 148 || x == 164 ||
        x == 172 || x == 180 || x == 188 || x == 196 || x == 204 || x == 228 || x == 236) by
        (bit_vector)
        requires
            x % 4 == 0,
            (x / 4) % 2 == 1,
            ({
                let aaa = x / 32;
                let bbb = (x / 4) % 8;
                (aaa == 1 && bbb <= 3) || (aaa == 2 && bbb == 3) || (aaa == 4 && bbb <= 5) || aaa
                    == 5 || (aaa >= 6 && bbb <= 3)
            }),
    ;
}

/// The one-byte opcodes $x8: PHP, CLC, PLP, SEC, PHA, CLI, PLA, SEI, DEY, TYA,
/// TAY, CLV, INY, CLD, INX, SED by the high nibble.
pub proof fn lemma_decode_column_eight(x: u8)
    requires
        x % 16 == 8,
    ensures
        instruction_of(x) == Some(
            Instruction {
                op: if x / 16 == 0 {
                    Op::Php
                } else if x / 16 == 1 {
                    Op::Clc
                } else if x / 16 == 2 {
                    Op::Plp
                } else if x / 16 == 3 {
                    Op::Sec
                } else if x / 16 == 4 {
                    Op::Pha
                } else if x / 16 == 5 {
                    Op::Cli
                } else if x / 16 == 6 {
                    Op::Pla
                } else if x / 16 == 7 {
                    Op::Sei
                } else if x / 16 == 8 {
                    Op::Dey
                } else if x / 16 == 9 {
                    Op::Tya
                } else if x / 16 == 10 {
                    Op::Tay
                } else if x / 16 == 11 {
                    Op::Clv
                } else if x / 16 == 12 {
                    Op::Iny
                } else if x / 16 == 13 {
                    Op::Cld
                } else if x / 16 == 14 {
                    Op::Inx
                } else {
                    Op::Sed
                },
                mode: Mode::Implied,
            },
        ),
{
    assert(x == 8 || x == 24 || x == 40 || x == 56 || x == 72 || x == 88 || x == 104 || x ==
        120 || x == 136 || x == 152 || x == 168 || x == 184 || x == 200 || x == 216 || x ==
        232 || x == 248) by (bit_vector)
        requires
            x % 16 == 8,
    ;
}

/// The conditional branches $10, $30, ..., $F0 (BPL, BMI, BVC, BVS, BCC, BCS,
/// BNE, BEQ) and BRA ($80) take a relative operand.
pub proof fn lemma_decode_branches(x: u8)
    requires
        x % 32 == 16 || x == 0x80,
    ensures
        instruction_of(x) matches Some(ins) && ins.mode == Mode::Relative && ins.op == (if x == 0x80 {
            Op::Bra
        } else if x / 32 == 0 {
            Op::Bpl
        } else if x / 32 == 1 {
            Op::Bmi
        } else if x / 32 == 2 {
            Op::Bvc
        } else if x / 32 == 3 {
            Op::Bvs
        } else if x / 32 == 4 {
            Op::Bcc
        } else if x / 32 == 5 {
            Op::Bcs
        } else if x / 32 == 6 {
            Op::Bne
        } else {
            Op::Beq
        }),
{
    assert(x == 0x80 || x == 16 || x == 48 || x == 80 || x == 112 || x == 144 || x == 176 || x
        == 208 || x == 240) by (bit_vector)
        requires
            x % 32 == 16 || x == 0x80,
    ;
}

/// The remaining opcodes, one by one: BRK, JSR, RTI, RTS, JMP ($nnnn), BIT #$nn,
/// the immediate forms of LDY, CPY, CPX and LDX, the accumulator forms of ASL,
/// ROL, LSR and ROR, and TXA, TXS, TAX, TSX, DEX and NOP.
pub proof fn lemma_decode_others()
    ensures
        instruction_of(0x00) == Some(Instruction { op: Op::Brk, mode: Mode::Implied }),
        instruction_of(0x20) == Some(Instruction { op: Op::Jsr, mode: Mode::Absolute }),
        instruction_of(0x40) == Some(Instruction { op: Op::Rti, mode: Mode::Implied }),
        instruction_of(0x60) == Some(Instruction { op: Op::Rts, mode: Mode::Implied }),
        instruction_of(0x6C) == Some(Instruction { op: Op::Jmp, mode: Mode::Indirect }),
        instruction_of(0x89) == Some(Instruction { op: Op::Bit, mode: Mode::Immediate }),
        instruction_of(0xA0) == Some(Instruction { op: Op::Ldy, mode: Mode::Immediate }),
        instruction_of(0xC0) == Some(Instruction { op: Op::CompareY, mode: Mode::Immediate }),
        instruction_of(0xE0) == Some(Instruction { op: Op::CompareX, mode: Mode::Immediate }),
        instruction_of(0xA2) == Some(Instruction { op: Op::Ldx, mode: Mode::Immediate }),
        instruction_of(0x0A) == Some(Instruction { op: Op::Asl, mode: Mode::Accumulator }),
        instruction_of(0x2A) == Some(Instruction { op: Op::Rol, mode: Mode::Accumulator }),
        instruction_of(0x4A) == Some(Instruction { op: Op::Lsr, mode: Mode::Accumulator }),
        instruction_of(0x6A) == Some(Instruction { op: Op::Ror, mode: Mode::Accumulator }),
        instruction_of(0x8A) == Some(Instruction { op: Op::Txa, mode: Mode::Implied }),
        instruction_of(0x9A) == Some(Instruction { op: Op::Txs, mode: Mode::Implied }),
        instruction_of(0xAA) == Some(Instruction { op: Op::Tax, mode: Mode::Implied }),
        instruction_of(0xBA) == Some(Instruction { op: Op::Tsx, mode: Mode::Implied }),
        instruction_of(0xCA) == Some(Instruction { op: Op::Dex, mode: Mode::Implied }),
        instruction_of(0xEA) == Some(Instruction { op: Op::Nop, mode: Mode::Implied }),
{
}

/// No opcode whose low two bits are 11 is implemented.
pub proof fn lemma_decode_group_three(x: u8)
    requires
        x % 4 == 3,
    ensures
        instruction_of(x) is None,
{
    assert(x == 3 || x == 7 || x == 11 || x == 15 || x == 19 || x == 23 || x == 27 || x ==
        31 || x == 35 || x == 39 || x == 43 || x == 47 || x == 51 || x == 55 || x == 59 || x
        == 63 || x == 67 || x == 71 || x == 75 || x == 79 || x == 83 || x == 87 || x == 91
        || x == 95 || x == 99 || x == 103 || x == 107 || x == 111 || x == 115 || x == 119 ||
        x == 123 || x == 127 || x == 131 || x == 135 || x == 139 || x == 143 || x == 147 ||
        x == 151 || x == 155 || x == 159 || x == 163 || x == 167 || x == 171 || x == 175 ||
        x == 179 || x == 183 || x == 187 || x == 191 || x == 195 || x == 199 || x == 203 ||
        x == 207 || x == 211 || x == 215 || x == 219 || x == 223 || x == 227 || x == 231 ||
        x == 235 || x == 239 || x == 243 || x == 247 || x == 251 || x == 255) by
        (bit_vector)
        requires
            x % 4 == 3,
    ;
}

} // verus!
