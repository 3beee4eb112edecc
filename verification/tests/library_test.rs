use mos6502r::cpu::CPU;
use mos6502r::isa::{decode, Instruction, Mode, Op};
use mos6502r::memory::Memory;
use mos6502r::opcodes::{
    ADC_ZP, BNE, BRK, CLC, DEX, INY, LDA_IMM, LDA_ZP, LDX_IMM, LDY_IMM, STA_ABSY, STA_ZP,
};
use mos6502r::register::StatusRegister;

fn setup(start: u16, program: &[u8]) -> (CPU, Memory) {
    let mut cpu = CPU::new();
    let mut mem = Memory::new();
    mem.load(start, program);
    cpu.set_pc(start);
    (cpu, mem)
}

fn all_flags(value: bool) -> StatusRegister {
    StatusRegister { c: value, z: value, i: value, d: value, b: value, v: value, n: value }
}

// ─── Status register ───────────────────────────────────────────────────────

#[test]
fn status_new_is_clear_and_encodes_bit5() {
    let s = StatusRegister::new();
    assert!(!s.c && !s.z && !s.i && !s.d && !s.b && !s.v && !s.n);
    assert_eq!(s.as_byte(), 0x20);
}

#[test]
fn status_all_set_encodes_ff() {
    assert_eq!(all_flags(true).as_byte(), 0xFF);
}

#[test]
fn status_bits_in_place() {
    let mut s = StatusRegister::new();
    s.c = true;
    s.n = true;
    assert_eq!(s.as_byte(), 0xA1);
    let mut t = StatusRegister::new();
    t.z = true;
    t.v = true;
    assert_eq!(t.as_byte(), 0x62);
}

#[test]
fn status_from_byte_ignores_bit5() {
    let s = StatusRegister::from_byte(0x20);
    assert_eq!(s.as_byte(), 0x20);
    assert!(!s.c && !s.z && !s.i && !s.d && !s.b && !s.v && !s.n);
    let t = StatusRegister::from_byte(0xDF);
    assert!(t.c && t.z && t.i && t.d && t.b && t.v && t.n);
}

#[test]
fn status_round_trips() {
    for byte in 0..=255u8 {
        let s = StatusRegister::from_byte(byte);
        assert_eq!(s.as_byte(), byte | 0x20);
        let t = StatusRegister::from_byte(s.as_byte());
        assert_eq!(t.as_byte(), s.as_byte());
    }
}

// ─── Memory ────────────────────────────────────────────────────────────────

#[test]
fn memory_starts_zeroed() {
    let mem = Memory::new();
    assert_eq!(mem.read(0x0000), 0);
    assert_eq!(mem.read(0x8000), 0);
    assert_eq!(mem.read(0xFFFF), 0);
}

#[test]
fn memory_write_then_read() {
    let mut mem = Memory::new();
    mem.write(0x1234, 0x56);
    mem.write(0x1235, 0x78);
    assert_eq!(mem.read(0x1234), 0x56);
    assert_eq!(mem.read(0x1235), 0x78);
    assert_eq!(mem.read(0x1233), 0x00);
    mem.write(0x1234, 0x9A);
    assert_eq!(mem.read(0x1234), 0x9A);
}

#[test]
fn memory_load_places_bytes() {
    let mut mem = Memory::new();
    mem.write(0x00FF, 0x11);
    mem.load(0xFFFD, &[0x01, 0x02, 0x03]);
    assert_eq!(mem.read(0xFFFD), 0x01);
    assert_eq!(mem.read(0xFFFE), 0x02);
    assert_eq!(mem.read(0xFFFF), 0x03);
    assert_eq!(mem.read(0xFFFC), 0x00);
    assert_eq!(mem.read(0x00FF), 0x11);
}

#[test]
fn load_rom_rejects_bad_sizes() {
    assert!(Memory::load_rom(&[]).is_none());
    let big = vec![0u8; 0x8001];
    assert!(Memory::load_rom(&big).is_none());
}

#[test]
fn load_rom_places_image_at_top_and_reads_reset_vector() {
    let mut rom = vec![0xEAu8; 0x4000];
    rom[0x3FFC] = 0x00; // $FFFC
    rom[0x3FFD] = 0xC0; // $FFFD
    rom[0] = 0xA9;
    let (mem, pc) = Memory::load_rom(&rom).unwrap();
    assert_eq!(pc, 0xC000);
    assert_eq!(mem.read(0xC000), 0xA9);
    assert_eq!(mem.read(0xC001), 0xEA);
    assert_eq!(mem.read(0xBFFF), 0x00);
    assert_eq!(mem.read(0xFFFF), 0xEA);
}

#[test]
fn load_rom_largest_image() {
    let mut rom = vec![0u8; 0x8000];
    rom[0x7FFC] = 0x34;
    rom[0x7FFD] = 0x12;
    rom[0] = 0x55;
    let (mem, pc) = Memory::load_rom(&rom).unwrap();
    assert_eq!(pc, 0x1234);
    assert_eq!(mem.read(0x8000), 0x55);
    assert_eq!(mem.read(0x7FFF), 0x00);
}

#[test]
fn load_rom_one_byte() {
    let (mem, pc) = Memory::load_rom(&[0x77]).unwrap();
    assert_eq!(mem.read(0xFFFF), 0x77);
    assert_eq!(pc, 0x0000);
}

// ─── Decoding ──────────────────────────────────────────────────────────────

#[test]
fn decode_known_opcodes() {
    assert_eq!(decode(0xA9), Some(Instruction { op: Op::Lda, mode: Mode::Immediate }));
    assert_eq!(decode(0x6C), Some(Instruction { op: Op::Jmp, mode: Mode::Indirect }));
    assert_eq!(decode(0x89), Some(Instruction { op: Op::Bit, mode: Mode::Immediate }));
    assert_eq!(decode(0x80), Some(Instruction { op: Op::Bra, mode: Mode::Relative }));
    assert_eq!(decode(0xE0), Some(Instruction { op: Op::CompareX, mode: Mode::Immediate }));
}

#[test]
fn decode_unimplemented_opcodes() {
    assert_eq!(decode(0x02), None);
    assert_eq!(decode(0xFF), None);
    assert_eq!(decode(0x1A), None);
}

// ─── Whether a step is defined ─────────────────────────────────────────────

#[test]
fn step_defined_rejects_unimplemented_opcode() {
    let (cpu, mem) = setup(0x0200, &[0x02]);
    assert!(!cpu.step_defined(&mem));
}

#[test]
fn step_defined_accepts_halted_cpu() {
    let (mut cpu, mut mem) = setup(0x0200, &[0x00, 0x02]);
    cpu.step(&mut mem);
    assert!(cpu.is_halted());
    assert!(cpu.step_defined(&mem));
}

#[test]
fn step_defined_rejects_fetch_at_ffff() {
    let mut cpu = CPU::new();
    let mut mem = Memory::new();
    mem.write(0xFFFF, 0xEA);
    cpu.set_pc(0xFFFF);
    assert!(!cpu.step_defined(&mem));
}

#[test]
fn step_defined_rejects_absolute_x_overflow() {
    // LDX #$10, LDA $FFF8,X: the indexed address passes $FFFF
    let (mut cpu, mut mem) = setup(0x0200, &[0xA2, 0x10, 0xBD, 0xF8, 0xFF]);
    assert!(cpu.step_defined(&mem));
    cpu.step(&mut mem);
    assert!(!cpu.step_defined(&mem));
}

#[test]
fn step_defined_rejects_indirect_pointer_ffff() {
    let (cpu, mem) = setup(0x0200, &[0x6C, 0xFF, 0xFF]);
    assert!(!cpu.step_defined(&mem));
}

#[test]
fn step_defined_rejects_operand_past_ffff() {
    // LDA #imm with its operand on $FFFF: the program counter would pass $FFFF
    let mut cpu = CPU::new();
    let mut mem = Memory::new();
    mem.write(0xFFFE, 0xA9);
    cpu.set_pc(0xFFFE);
    assert!(!cpu.step_defined(&mem));
}

// ─── Initial state and single steps ────────────────────────────────────────

#[test]
fn new_cpu_initial_registers() {
    let cpu = CPU::new();
    assert_eq!(cpu.a(), 0);
    assert_eq!(cpu.x(), 0);
    assert_eq!(cpu.y(), 0);
    assert_eq!(cpu.pc(), 0);
    assert_eq!(cpu.sp(), 0xFF);
    assert!(!cpu.is_halted());
    assert!(!cpu.carry() && !cpu.zero() && !cpu.negative() && !cpu.overflow());
}

#[test]
fn brk_pushes_return_address_and_status() {
    let (mut cpu, mut mem) = setup(0x0200, &[0x38, 0x00]); // SEC, BRK
    mem.write(0xFFFE, 0x34);
    mem.write(0xFFFF, 0x12);
    cpu.run(&mut mem);
    assert!(cpu.is_halted());
    assert_eq!(cpu.pc(), 0x1234);
    assert_eq!(cpu.sp(), 0xFC);
    assert_eq!(mem.read(0x01FF), 0x02);
    assert_eq!(mem.read(0x01FE), 0x02);
    assert_eq!(mem.read(0x01FD), 0x31); // C, B and bit 5
}

#[test]
fn php_plp_restores_status() {
    // SEC, SED, PHP, CLC, CLD, PLP, BRK
    let (mut cpu, mut mem) = setup(0x0200, &[0x38, 0xF8, 0x08, 0x18, 0xD8, 0x28, 0x00]);
    for _ in 0..6 {
        cpu.step(&mut mem);
    }
    assert!(cpu.carry());
    assert_eq!(cpu.sp(), 0xFF);
    assert_eq!(mem.read(0x01FF), 0x29);
}

#[test]
fn jsr_pushes_address_of_last_operand_byte() {
    let (mut cpu, mut mem) = setup(0x0200, &[0x20, 0x10, 0x02]);
    cpu.step(&mut mem);
    assert_eq!(cpu.pc(), 0x0210);
    assert_eq!(cpu.sp(), 0xFD);
    assert_eq!(mem.read(0x01FF), 0x02);
    assert_eq!(mem.read(0x01FE), 0x02);
}

#[test]
fn rti_restores_status_and_pc() {
    let mut cpu = CPU::new();
    let mut mem = Memory::new();
    // stack: status $C3 at $01FD, return $0345 at $01FE/$01FF
    mem.write(0x01FD, 0xC3);
    mem.write(0x01FE, 0x45);
    mem.write(0x01FF, 0x03);
    mem.load(0x0200, &[0xA2, 0xFC, 0x9A, 0x40]); // LDX #$FC, TXS, RTI
    cpu.set_pc(0x0200);
    cpu.step(&mut mem);
    cpu.step(&mut mem);
    cpu.step(&mut mem);
    assert_eq!(cpu.pc(), 0x0345);
    assert_eq!(cpu.sp(), 0xFF);
    assert!(cpu.carry() && cpu.zero() && cpu.overflow() && cpu.negative());
}

#[test]
fn branch_backwards_with_negative_offset() {
    let (mut cpu, mut mem) = setup(0x0210, &[0x80, 0xFC]); // BRA -4
    cpu.step(&mut mem);
    assert_eq!(cpu.pc(), 0x020E);
}

#[test]
fn branch_not_taken_skips_offset() {
    let (mut cpu, mut mem) = setup(0x0200, &[0xB0, 0x10]); // BCS +16 with C clear
    cpu.step(&mut mem);
    assert_eq!(cpu.pc(), 0x0202);
}

#[test]
fn jmp_indirect_wraps_within_page() {
    let (mut cpu, mut mem) = setup(0x0200, &[0x6C, 0xFF, 0x30]);
    mem.write(0x30FF, 0x80);
    mem.write(0x3000, 0x50);
    mem.write(0x3100, 0x99);
    cpu.step(&mut mem);
    assert_eq!(cpu.pc(), 0x5080);
}

#[test]
fn zero_page_x_wraps() {
    // LDX #$FF, LDA $80,X reads $7F
    let (mut cpu, mut mem) = setup(0x0200, &[0xA2, 0xFF, 0xB5, 0x80, 0x00]);
    mem.write(0x007F, 0x66);
    cpu.run(&mut mem);
    assert_eq!(cpu.a(), 0x66);
}

#[test]
fn indirect_y_adds_y_to_pointer() {
    // LDY #$04, LDA ($40),Y with ($40) = $1230 reads $1234
    let (mut cpu, mut mem) = setup(0x0200, &[0xA0, 0x04, 0xB1, 0x40, 0x00]);
    mem.write(0x0040, 0x30);
    mem.write(0x0041, 0x12);
    mem.write(0x1234, 0x77);
    cpu.run(&mut mem);
    assert_eq!(cpu.a(), 0x77);
}

#[test]
fn indirect_x_reads_pointer_in_zero_page() {
    // LDX #$02, LDA ($3E,X) with ($40) = $2000
    let (mut cpu, mut mem) = setup(0x0200, &[0xA2, 0x02, 0xA1, 0x3E, 0x00]);
    mem.write(0x0040, 0x00);
    mem.write(0x0041, 0x20);
    mem.write(0x2000, 0x5A);
    cpu.run(&mut mem);
    assert_eq!(cpu.a(), 0x5A);
}

#[test]
fn ora_indirect_x_is_two_bytes() {
    // LDX #$00, ORA ($10,X) with ($10) = $3000 holding $0F
    let (mut cpu, mut mem) = setup(0x0200, &[0xA2, 0x00, 0x01, 0x10, 0x00]);
    mem.write(0x0010, 0x00);
    mem.write(0x0011, 0x30);
    mem.write(0x3000, 0x0F);
    cpu.step(&mut mem);
    cpu.step(&mut mem);
    assert_eq!(cpu.pc(), 0x0204);
    assert_eq!(cpu.a(), 0x0F);
}

#[test]
fn pla_sets_zero_and_negative() {
    // LDA #$00, PHA, LDA #$80, PLA: Z from the pulled 0
    let (mut cpu, mut mem) = setup(0x0200, &[0xA9, 0x00, 0x48, 0xA9, 0x80, 0x68, 0x00]);
    for _ in 0..4 {
        cpu.step(&mut mem);
    }
    assert_eq!(cpu.a(), 0x00);
    assert!(cpu.zero());
    assert!(!cpu.negative());
    // LDA #$90, PHA, LDA #$00, PLA: N from the pulled $90
    let (mut cpu, mut mem) = setup(0x0200, &[0xA9, 0x90, 0x48, 0xA9, 0x00, 0x68, 0x00]);
    for _ in 0..4 {
        cpu.step(&mut mem);
    }
    assert_eq!(cpu.a(), 0x90);
    assert!(!cpu.zero());
    assert!(cpu.negative());
}

#[test]
fn rol_then_ror_restores() {
    // SEC, LDA #$81, ROL A, ROR A, BRK
    let (mut cpu, mut mem) = setup(0x0200, &[0x38, 0xA9, 0x81, 0x2A, 0x6A, 0x00]);
    cpu.step(&mut mem);
    cpu.step(&mut mem);
    cpu.step(&mut mem);
    assert_eq!(cpu.a(), 0x03);
    assert!(cpu.carry());
    cpu.step(&mut mem);
    assert_eq!(cpu.a(), 0x81);
    assert!(cpu.carry());
}

#[test]
fn inc_dec_memory_wrap() {
    // INC $10 ($FF -> $00), DEC $11 ($00 -> $FF)
    let (mut cpu, mut mem) = setup(0x0200, &[0xE6, 0x10, 0xC6, 0x11, 0x00]);
    mem.write(0x0010, 0xFF);
    cpu.step(&mut mem);
    assert_eq!(mem.read(0x0010), 0x00);
    assert!(cpu.zero());
    cpu.step(&mut mem);
    assert_eq!(mem.read(0x0011), 0xFF);
    assert!(cpu.negative());
}

#[test]
fn bit_copies_bits_6_and_7() {
    // LDA #$01, BIT $10 with $10 = $C0
    let (mut cpu, mut mem) = setup(0x0200, &[0xA9, 0x01, 0x24, 0x10, 0x00]);
    mem.write(0x0010, 0xC0);
    cpu.run(&mut mem);
    assert!(cpu.zero());
    assert!(cpu.negative());
    assert!(cpu.overflow());
}

#[test]
fn bit_immediate_tests_operand_byte() {
    // LDA #$FF, BIT #$40, BRK
    let (mut cpu, mut mem) = setup(0x0200, &[0xA9, 0xFF, 0x89, 0x40, 0x00]);
    cpu.step(&mut mem);
    cpu.step(&mut mem);
    assert_eq!(cpu.pc(), 0x0204);
    assert!(!cpu.zero());
    assert!(cpu.overflow());
    assert!(!cpu.negative());
    // LDA #$01, BIT #$80
    let (mut cpu, mut mem) = setup(0x0200, &[0xA9, 0x01, 0x89, 0x80, 0x00]);
    cpu.run(&mut mem);
    assert!(cpu.zero());
    assert!(cpu.negative());
}

#[test]
fn sbc_equals_adc_of_complement() {
    for (a, m, carry) in [(0x50u8, 0x10u8, true), (0x10, 0x01, false), (0xD0, 0x70, true), (0x00, 0xFF, false)] {
        let c = if carry { 0x38 } else { 0x18 };
        let (mut cpu1, mut mem1) = setup(0x0200, &[0xA9, a, c, 0xE9, m, 0x00]);
        let (mut cpu2, mut mem2) = setup(0x0200, &[0xA9, a, c, 0x69, !m, 0x00]);
        cpu1.run(&mut mem1);
        cpu2.run(&mut mem2);
        assert_eq!(cpu1.a(), cpu2.a());
        assert_eq!(cpu1.carry(), cpu2.carry());
        assert_eq!(cpu1.overflow(), cpu2.overflow());
        assert_eq!(cpu1.zero(), cpu2.zero());
        assert_eq!(cpu1.negative(), cpu2.negative());
    }
}

#[test]
fn adc_negative_overflow() {
    // $80 + $FF = $17F: carry, signed overflow (-128 + -1)
    let (mut cpu, mut mem) = setup(0x0200, &[0xA9, 0x80, 0x69, 0xFF, 0x00]);
    cpu.run(&mut mem);
    assert_eq!(cpu.a(), 0x7F);
    assert!(cpu.carry());
    assert!(cpu.overflow());
}

#[test]
fn cpx_cpy_compare_index_registers() {
    // LDX #$05, CPX #$06, BRK
    let (mut cpu, mut mem) = setup(0x0200, &[0xA2, 0x05, 0xE0, 0x06, 0x00]);
    cpu.run(&mut mem);
    assert!(!cpu.carry());
    assert!(cpu.negative());
    // LDY #$07, CPY #$07, BRK
    let (mut cpu, mut mem) = setup(0x0200, &[0xA0, 0x07, 0xC0, 0x07, 0x00]);
    cpu.run(&mut mem);
    assert!(cpu.carry());
    assert!(cpu.zero());
}

#[test]
fn tsx_txs_transfer_stack_pointer() {
    // TSX, DEX, TXS, BRK
    let (mut cpu, mut mem) = setup(0x0200, &[0xBA, 0xCA, 0x9A]);
    cpu.step(&mut mem);
    assert_eq!(cpu.x(), 0xFF);
    assert!(cpu.negative());
    cpu.step(&mut mem);
    cpu.step(&mut mem);
    assert_eq!(cpu.sp(), 0xFE);
}

// ─── Whole programs ────────────────────────────────────────────────────────

#[test]
fn program_checksum() {
    let mut cpu = CPU::new();
    let mut mem = Memory::new();
    let data: &[u8] = &[0x01, 0x02, 0x03, 0x04, 0x05, 0x06, 0x07, 0x08];
    mem.load(0x0010, data);
    let program: &[u8] = &[
        0xA9, 0x00, 0xA2, 0x08, 0xA0, 0x00, 0x18, 0x79, 0x10, 0x00, 0xC8, 0xCA, 0xD0, 0xF8,
        0x85, 0x00, 0x00,
    ];
    mem.load(0x0200, program);
    cpu.set_pc(0x0200);
    cpu.run(&mut mem);
    assert_eq!(mem.read(0x0000), 36);
}

#[test]
fn program_countdown() {
    let mut cpu = CPU::new();
    let mut mem = Memory::new();
    let program: &[u8] = &[0xA2, 0x0A, 0xA0, 0x00, 0x8A, 0x99, 0x00, 0x03, 0xC8, 0xCA, 0xD0, 0xF8, 0x00];
    mem.load(0x0200, program);
    cpu.set_pc(0x0200);
    cpu.run(&mut mem);
    for i in 0..10u16 {
        assert_eq!(mem.read(0x0300 + i), (10 - i) as u8);
    }
}

#[test]
fn program_fibonacci() {
    let mut cpu = CPU::new();
    let mut mem = Memory::new();
    let program: &[u8] = &[
        LDA_IMM, 0x00, STA_ZP, 0x00, STA_ZP, 0x10,
        LDA_IMM, 0x01, STA_ZP, 0x01, STA_ZP, 0x11,
        LDY_IMM, 0x02,
        LDX_IMM, 0x08,
        CLC,
        LDA_ZP, 0x00, ADC_ZP, 0x01, STA_ZP, 0x02,
        LDA_ZP, 0x01, STA_ZP, 0x00,
        LDA_ZP, 0x02, STA_ZP, 0x01,
        STA_ABSY, 0x10, 0x00,
        INY,
        DEX,
        BNE, 0xEA,
        BRK,
    ];
    mem.load(0x0200, program);
    cpu.set_pc(0x0200);
    cpu.run(&mut mem);
    let expected = [0u8, 1, 1, 2, 3, 5, 8, 13, 21, 34];
    for i in 0..10u16 {
        assert_eq!(mem.read(0x0010 + i), expected[i as usize]);
    }
}
