use vstd::prelude::*;

verus! {

/// BRK
pub const BRK: u8 = 0x00;

/// ORA ($nn,X)
pub const ORA_INDX: u8 = 0x01;

/// ORA $nn
pub const ORA_ZP: u8 = 0x05;

/// ASL $nn
pub const ASL_ZP: u8 = 0x06;

/// PHP
pub const PHP: u8 = 0x08;

/// ORA #$nn
pub const ORA_IMM: u8 = 0x09;

/// ASL A
pub const ASL_ACC: u8 = 0x0A;

/// ORA $nnnn
pub const ORA_ABS: u8 = 0x0D;

/// ASL $nnnn
pub const ASL_ABS: u8 = 0x0E;

/// BPL $rr
pub const BPL: u8 = 0x10;

/// ORA ($nn),Y
pub const ORA_INDY: u8 = 0x11;

/// ORA $nn,X
pub const ORA_ZPX: u8 = 0x15;

/// ASL $nn,X
pub const ASL_ZPX: u8 = 0x16;

/// CLC
pub const CLC: u8 = 0x18;

/// ORA $nnnn,Y
pub const ORA_ABSY: u8 = 0x19;

/// ORA $nnnn,X
pub const ORA_ABSX: u8 = 0x1D;

/// ASL $nnnn,X
pub const ASL_ABSX: u8 = 0x1E;

/// JSR $nnnn
pub const JSR: u8 = 0x20;

/// AND ($nn,X)
pub const AND_INDX: u8 = 0x21;

/// BIT $nn
pub const BIT_ZP: u8 = 0x24;

/// AND $nn
pub const AND_ZP: u8 = 0x25;

/// ROL $nn
pub const ROL_ZP: u8 = 0x26;

/// PLP
pub const PLP: u8 = 0x28;

/// AND #$nn
pub const AND_IMM: u8 = 0x29;

/// ROL A
pub const ROL_ACC: u8 = 0x2A;

/// BIT $nnnn
pub const BIT_ABS: u8 = 0x2C;

/// AND $nnnn
pub const AND_ABS: u8 = 0x2D;

/// ROL $nnnn
pub const ROL_ABS: u8 = 0x2E;

/// BMI $rr
pub const BMI: u8 = 0x30;

/// AND ($nn),Y
pub const AND_INDY: u8 = 0x31;

/// AND $nn,X
pub const AND_ZPX: u8 = 0x35;

/// ROL $nn,X
pub const ROL_ZPX: u8 = 0x36;

/// SEC
pub const SEC: u8 = 0x38;

/// AND $nnnn,Y
pub const AND_ABSY: u8 = 0x39;

/// AND $nnnn,X
pub const AND_ABSX: u8 = 0x3D;

/// ROL $nnnn,X
pub const ROL_ABSX: u8 = 0x3E;

/// RTI
pub const RTI: u8 = 0x40;

/// EOR ($nn,X)
pub const EOR_INDX: u8 = 0x41;

/// EOR $nn
pub const EOR_ZP: u8 = 0x45;

/// LSR $nn
pub const LSR_ZP: u8 = 0x46;

/// PHA
pub const PHA: u8 = 0x48;

/// EOR #$nn
pub const EOR_IMM: u8 = 0x49;

/// LSR A
pub const LSR_ACC: u8 = 0x4A;

/// JMP $nnnn
pub const JMP_ABS: u8 = 0x4C;

/// EOR $nnnn
pub const EOR_ABS: u8 = 0x4D;

/// LSR $nnnn
pub const LSR_ABS: u8 = 0x4E;

/// BVC $rr
pub const BVC: u8 = 0x50;

/// EOR ($nn),Y
pub const EOR_INDY: u8 = 0x51;

/// EOR $nn,X
pub const EOR_ZPX: u8 = 0x55;

/// LSR $nn,X
pub const LSR_ZPX: u8 = 0x56;

/// CLI
pub const CLI: u8 = 0x58;

/// EOR $nnnn,Y
pub const EOR_ABSY: u8 = 0x59;

/// EOR $nnnn,X
pub const EOR_ABSX: u8 = 0x5D;

/// LSR $nnnn,X
pub const LSR_ABSX: u8 = 0x5E;

/// RTS
pub const RTS: u8 = 0x60;

/// ADC ($nn,X)
pub const ADC_INDX: u8 = 0x61;

/// ADC $nn
pub const ADC_ZP: u8 = 0x65;

/// ROR $nn
pub const ROR_ZP: u8 = 0x66;

/// PLA
pub const PLA: u8 = 0x68;

/// ADC #$nn
pub const ADC_IMM: u8 = 0x69;

/// ROR A
pub const ROR_ACC: u8 = 0x6A;

/// JMP ($nnnn)
pub const JMP_IND: u8 = 0x6C;

/// ADC $nnnn
pub const ADC_ABS: u8 = 0x6D;

/// ROR $nnnn
pub const ROR_ABS: u8 = 0x6E;

/// BVS $rr
pub const BVS: u8 = 0x70;

/// ADC ($nn),Y
pub const ADC_INDY: u8 = 0x71;

/// ADC $nn,X
pub const ADC_ZPX: u8 = 0x75;

/// ROR $nn,X
pub const ROR_ZPX: u8 = 0x76;

/// SEI
pub const SEI: u8 = 0x78;

/// ADC $nnnn,Y
pub const ADC_ABSY: u8 = 0x79;

/// ADC $nnnn,X
pub const ADC_ABSX: u8 = 0x7D;

/// ROR $nnnn,X
pub const ROR_ABSX: u8 = 0x7E;

/// BRA $rr
pub const BRA: u8 = 0x80;

/// STA ($nn,X)
pub const STA_INDX: u8 = 0x81;

/// STY $nn
pub const STY_ZP: u8 = 0x84;

/// STA $nn
pub const STA_ZP: u8 = 0x85;

/// STX $nn
pub const STX_ZP: u8 = 0x86;

/// DEY
pub const DEY: u8 = 0x88;

/// BIT #$nn
pub const BIT_IMM: u8 = 0x89;

/// TXA
pub const TXA: u8 = 0x8A;

/// STY $nnnn
pub const STY_ABS: u8 = 0x8C;

/// STA $nnnn
pub const STA_ABS: u8 = 0x8D;

/// STX $nnnn
pub const STX_ABS: u8 = 0x8E;

/// BCC $rr
pub const BCC: u8 = 0x90;

/// STA ($nn),Y
pub const STA_INDY: u8 = 0x91;

/// STY $nn,X
pub const STY_ZPX: u8 = 0x94;

/// STA $nn,X
pub const STA_ZPX: u8 = 0x95;

/// STX $nn,Y
pub const STX_ZPY: u8 = 0x96;

/// TYA
pub const TYA: u8 = 0x98;

/// STA $nnnn,Y
pub const STA_ABSY: u8 = 0x99;

/// TXS
pub const TXS: u8 = 0x9A;

/// STA $nnnn,X
pub const STA_ABSX: u8 = 0x9D;

/// LDY #$nn
pub const LDY_IMM: u8 = 0xA0;

/// LDA ($nn,X)
pub const LDA_INDX: u8 = 0xA1;

/// LDX #$nn
pub const LDX_IMM: u8 = 0xA2;

/// LDY $nn
pub const LDY_ZP: u8 = 0xA4;

/// LDA $nn
pub const LDA_ZP: u8 = 0xA5;

/// LDX $nn
pub const LDX_ZP: u8 = 0xA6;

/// TAY
pub const TAY: u8 = 0xA8;

/// LDA #$nn
pub const LDA_IMM: u8 = 0xA9;

/// TAX
pub const TAX: u8 = 0xAA;

/// LDY $nnnn
pub const LDY_ABS: u8 = 0xAC;

/// LDA $nnnn
pub const LDA_ABS: u8 = 0xAD;

/// LDX $nnnn
pub const LDX_ABS: u8 = 0xAE;

/// BCS $rr
pub const BCS: u8 = 0xB0;

/// LDA ($nn),Y
pub const LDA_INDY: u8 = 0xB1;

/// LDY $nn,X
pub const LDY_ZPX: u8 = 0xB4;

/// LDA $nn,X
pub const LDA_ZPX: u8 = 0xB5;

/// LDX $nn,Y
pub const LDX_ZPY: u8 = 0xB6;

/// CLV
pub const CLV: u8 = 0xB8;

/// LDA $nnnn,Y
pub const LDA_ABSY: u8 = 0xB9;

/// TSX
pub const TSX: u8 = 0xBA;

/// LDY $nnnn,X
pub const LDY_ABSX: u8 = 0xBC;

/// LDA $nnnn,X
pub const LDA_ABSX: u8 = 0xBD;

/// LDX $nnnn,Y
pub const LDX_ABSY: u8 = 0xBE;

/// CPY #$nn
pub const CPY_IMM: u8 = 0xC0;

/// CMP ($nn,X)
pub const CMP_INDX: u8 = 0xC1;

/// CPY $nn
pub const CPY_ZP: u8 = 0xC4;

/// CMP $nn
pub const CMP_ZP: u8 = 0xC5;

/// DEC $nn
pub const DEC_ZP: u8 = 0xC6;

/// INY
pub const INY: u8 = 0xC8;

/// CMP #$nn
pub const CMP_IMM: u8 = 0xC9;

/// DEX
pub const DEX: u8 = 0xCA;

/// CPY $nnnn
pub const CPY_ABS: u8 = 0xCC;

/// CMP $nnnn
pub const CMP_ABS: u8 = 0xCD;

/// DEC $nnnn
pub const DEC_ABS: u8 = 0xCE;

/// BNE $rr
pub const BNE: u8 = 0xD0;

/// CMP ($nn),Y
pub const CMP_INDY: u8 = 0xD1;

/// CMP $nn,X
pub const CMP_ZPX: u8 = 0xD5;

/// DEC $nn,X
pub const DEC_ZPX: u8 = 0xD6;

/// CLD
pub const CLD: u8 = 0xD8;

/// CMP $nnnn,Y
pub const CMP_ABSY: u8 = 0xD9;

/// CMP $nnnn,X
pub const CMP_ABSX: u8 = 0xDD;

/// DEC $nnnn,X
pub const DEC_ABSX: u8 = 0xDE;

/// CPX #$nn
pub const CPX_IMM: u8 = 0xE0;

/// SBC ($nn,X)
pub const SBC_INDX: u8 = 0xE1;

/// CPX $nn
pub const CPX_ZP: u8 = 0xE4;

/// SBC $nn
pub const SBC_ZP: u8 = 0xE5;

/// INC $nn
pub const INC_ZP: u8 = 0xE6;

/// INX
pub const INX: u8 = 0xE8;

/// SBC #$nn
pub const SBC_IMM: u8 = 0xE9;

/// NOP
pub const NOP: u8 = 0xEA;

/// CPX $nnnn
pub const CPX_ABS: u8 = 0xEC;

/// SBC $nnnn
pub const SBC_ABS: u8 = 0xED;

/// INC $nnnn
pub const INC_ABS: u8 = 0xEE;

/// BEQ $rr
pub const BEQ: u8 = 0xF0;

/// SBC ($nn),Y
pub const SBC_INDY: u8 = 0xF1;

/// SBC $nn,X
pub const SBC_ZPX: u8 = 0xF5;

/// INC $nn,X
pub const INC_ZPX: u8 = 0xF6;

/// SED
pub const SED: u8 = 0xF8;

/// SBC $nnnn,Y
pub const SBC_ABSY: u8 = 0xF9;

/// SBC $nnnn,X
pub const SBC_ABSX: u8 = 0xFD;

/// INC $nnnn,X
pub const INC_ABSX: u8 = 0xFE;

} // verus!
