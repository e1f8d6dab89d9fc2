//! Arithmetic, logic, compare, shift and increment behaviour, each with its
//! exact documented cycle budget.

use emulator_6502::consts::{
    ADC_IM, AND_IM, ASL_A, ASL_ABSX, BIT_ZP, CMP_IM, CPX_IM, CPY_IM, DEC_ZP, DEX, EOR_IM, INC_ZP,
    INX, LDA_IM, LSR_A, ORA_IM, ROL_ZP, ROR_A, SBC_IM,
};
use emulator_6502::cpu::{EmuError, CPU};
use emulator_6502::memory::Memory;

fn boot(mem: &mut Memory) -> CPU {
    mem.write(0xFFFC, 0x00);
    mem.write(0xFFFD, 0xE0);
    let mut cpu = CPU::default();
    cpu.reset(mem);
    cpu
}

#[test]
fn adc_carry_chain() {
    let mut mem = Memory::new();
    let mut cpu = boot(&mut mem);

    cpu.a = 0xFF;
    mem.write(0xE000, ADC_IM);
    mem.write(0xE001, 0x01);

    cpu.execute(2, &mut mem).unwrap();

    assert_eq!(cpu.a, 0x00);
    assert!(cpu.p.carry_flag());
    assert!(cpu.p.zero_flag());
    assert!(!cpu.p.overflow_flag());
    assert!(!cpu.p.negative_flag());
}

#[test]
fn adc_adds_carry_in() {
    let mut mem = Memory::new();
    let mut cpu = boot(&mut mem);

    cpu.a = 0x10;
    cpu.p.set_carry(true);
    mem.write(0xE000, ADC_IM);
    mem.write(0xE001, 0x20);

    cpu.execute(2, &mut mem).unwrap();

    assert_eq!(cpu.a, 0x31);
    assert!(!cpu.p.carry_flag());
}

#[test]
fn sbc_without_borrow() {
    let mut mem = Memory::new();
    let mut cpu = boot(&mut mem);

    cpu.a = 0x10;
    cpu.p.set_carry(true);
    mem.write(0xE000, SBC_IM);
    mem.write(0xE001, 0x01);

    cpu.execute(2, &mut mem).unwrap();

    assert_eq!(cpu.a, 0x0F);
    assert!(cpu.p.carry_flag());
}

#[test]
fn sbc_with_borrow_wraps() {
    let mut mem = Memory::new();
    let mut cpu = boot(&mut mem);

    cpu.a = 0x00;
    cpu.p.set_carry(true);
    mem.write(0xE000, SBC_IM);
    mem.write(0xE001, 0x01);

    cpu.execute(2, &mut mem).unwrap();

    assert_eq!(cpu.a, 0xFF);
    assert!(!cpu.p.carry_flag());
    assert!(cpu.p.negative_flag());
}

#[test]
fn cmp_less_sets_negative_from_difference() {
    let mut mem = Memory::new();
    let mut cpu = boot(&mut mem);

    cpu.a = 0x10;
    mem.write(0xE000, CMP_IM);
    mem.write(0xE001, 0x20);

    cpu.execute(2, &mut mem).unwrap();

    // 0x10 - 0x20 is 0xF0 mod 256: carry clear, not zero, negative set.
    assert!(!cpu.p.carry_flag());
    assert!(!cpu.p.zero_flag());
    assert!(cpu.p.negative_flag());
}

#[test]
fn cmp_assigns_flags_unconditionally() {
    let mut mem = Memory::new();
    let mut cpu = boot(&mut mem);

    // Start with stale Z and N left set; an unequal, positive-difference
    // compare must clear both.
    cpu.a = 0x21;
    cpu.p.set_zero(true);
    cpu.p.set_negative(true);
    mem.write(0xE000, CMP_IM);
    mem.write(0xE001, 0x20);

    cpu.execute(2, &mut mem).unwrap();

    assert!(cpu.p.carry_flag());
    assert!(!cpu.p.zero_flag());
    assert!(!cpu.p.negative_flag());
}

#[test]
fn cpx_and_cpy_immediate() {
    let mut mem = Memory::new();
    let mut cpu = boot(&mut mem);

    cpu.x = 0x05;
    cpu.y = 0x01;
    mem.write(0xE000, CPX_IM);
    mem.write(0xE001, 0x05);
    mem.write(0xE002, CPY_IM);
    mem.write(0xE003, 0x02);

    cpu.execute(4, &mut mem).unwrap();

    // CPY overwrote the CPX flags: Y < 2 clears carry and zero.
    assert!(!cpu.p.carry_flag());
    assert!(!cpu.p.zero_flag());
    assert!(cpu.p.negative_flag());
}

#[test]
fn and_eor_ora_immediate() {
    let mut mem = Memory::new();
    let mut cpu = boot(&mut mem);

    cpu.a = 0b1100_1100;
    mem.write(0xE000, AND_IM);
    mem.write(0xE001, 0b1010_1010);
    mem.write(0xE002, EOR_IM);
    mem.write(0xE003, 0b0000_1111);
    mem.write(0xE004, ORA_IM);
    mem.write(0xE005, 0b1000_0000);

    cpu.execute(6, &mut mem).unwrap();

    // (0xCC & 0xAA) = 0x88; 0x88 ^ 0x0F = 0x87; 0x87 | 0x80 = 0x87.
    assert_eq!(cpu.a, 0x87);
    assert!(cpu.p.negative_flag());
    assert!(!cpu.p.zero_flag());
}

#[test]
fn bit_copies_bits_and_keeps_carry() {
    let mut mem = Memory::new();
    let mut cpu = boot(&mut mem);

    cpu.a = 0x0F;
    cpu.p.set_carry(true);
    mem.write(0xE000, BIT_ZP);
    mem.write(0xE001, 0x10);
    mem.write(0x0010, 0xC0);

    cpu.execute(3, &mut mem).unwrap();

    assert!(cpu.p.zero_flag());
    assert!(cpu.p.negative_flag());
    assert!(cpu.p.overflow_flag());
    assert!(cpu.p.carry_flag());
    assert_eq!(cpu.a, 0x0F);
}

#[test]
fn inc_memory_wraps_to_zero() {
    let mut mem = Memory::new();
    let mut cpu = boot(&mut mem);

    mem.write(0xE000, INC_ZP);
    mem.write(0xE001, 0x42);
    mem.write(0x0042, 0xFF);

    cpu.execute(5, &mut mem).unwrap();

    assert_eq!(mem.read(0x0042), 0x00);
    assert!(cpu.p.zero_flag());
    assert!(!cpu.p.negative_flag());
}

#[test]
fn dec_memory_wraps_to_ff() {
    let mut mem = Memory::new();
    let mut cpu = boot(&mut mem);

    mem.write(0xE000, DEC_ZP);
    mem.write(0xE001, 0x42);
    mem.write(0x0042, 0x00);

    cpu.execute(5, &mut mem).unwrap();

    assert_eq!(mem.read(0x0042), 0xFF);
    assert!(!cpu.p.zero_flag());
    assert!(cpu.p.negative_flag());
}

#[test]
fn inx_wraps_and_dex_costs_two() {
    let mut mem = Memory::new();
    let mut cpu = boot(&mut mem);

    cpu.x = 0xFF;
    mem.write(0xE000, INX);
    mem.write(0xE001, DEX);

    // Both register steps cost two cycles each.
    cpu.execute(4, &mut mem).unwrap();

    assert_eq!(cpu.x, 0xFF);
    assert!(cpu.p.negative_flag());
    assert!(!cpu.p.zero_flag());
}

#[test]
fn asl_accumulator_shifts_into_carry() {
    let mut mem = Memory::new();
    let mut cpu = boot(&mut mem);

    cpu.a = 0x81;
    mem.write(0xE000, ASL_A);

    cpu.execute(2, &mut mem).unwrap();

    assert_eq!(cpu.a, 0x02);
    assert!(cpu.p.carry_flag());
    assert!(!cpu.p.negative_flag());
    assert!(!cpu.p.zero_flag());
}

#[test]
fn asl_clears_a_stale_carry() {
    let mut mem = Memory::new();
    let mut cpu = boot(&mut mem);

    cpu.a = 0x01;
    cpu.p.set_carry(true);
    mem.write(0xE000, ASL_A);

    cpu.execute(2, &mut mem).unwrap();

    assert_eq!(cpu.a, 0x02);
    assert!(!cpu.p.carry_flag());
}

#[test]
fn lsr_accumulator_to_zero() {
    let mut mem = Memory::new();
    let mut cpu = boot(&mut mem);

    cpu.a = 0x01;
    mem.write(0xE000, LSR_A);

    cpu.execute(2, &mut mem).unwrap();

    assert_eq!(cpu.a, 0x00);
    assert!(cpu.p.carry_flag());
    assert!(cpu.p.zero_flag());
}

#[test]
fn rol_memory_brings_carry_in() {
    let mut mem = Memory::new();
    let mut cpu = boot(&mut mem);

    cpu.p.set_carry(true);
    mem.write(0xE000, ROL_ZP);
    mem.write(0xE001, 0x30);
    mem.write(0x0030, 0x80);

    cpu.execute(5, &mut mem).unwrap();

    assert_eq!(mem.read(0x0030), 0x01);
    assert!(cpu.p.carry_flag());
}

#[test]
fn ror_accumulator_brings_carry_into_bit_seven() {
    let mut mem = Memory::new();
    let mut cpu = boot(&mut mem);

    cpu.a = 0x02;
    cpu.p.set_carry(true);
    mem.write(0xE000, ROR_A);

    cpu.execute(2, &mut mem).unwrap();

    assert_eq!(cpu.a, 0x81);
    assert!(!cpu.p.carry_flag());
    assert!(cpu.p.negative_flag());
}

#[test]
fn rmw_absolute_x_always_costs_seven() {
    let mut mem = Memory::new();
    let mut cpu = boot(&mut mem);

    cpu.x = 0x01;
    mem.write(0xE000, ASL_ABSX);
    mem.write(0xE001, 0x00);
    mem.write(0xE002, 0x20);
    mem.write(0x2001, 0x40);

    // No page cross, yet the read-modify-write always bills seven cycles.
    cpu.execute(7, &mut mem).unwrap();

    assert_eq!(mem.read(0x2001), 0x80);
    assert!(cpu.p.negative_flag());
}

#[test]
fn rmw_absolute_x_underflow_writes_nothing() {
    let mut mem = Memory::new();
    let mut cpu = boot(&mut mem);

    cpu.x = 0x01;
    mem.write(0xE000, ASL_ABSX);
    mem.write(0xE001, 0x00);
    mem.write(0xE002, 0x20);
    mem.write(0x2001, 0x40);

    assert_eq!(cpu.execute(6, &mut mem), Err(EmuError::CycleUnderflow));
    assert_eq!(mem.read(0x2001), 0x40);
    assert_eq!(cpu.pc, 0xE000);
}

#[test]
fn load_assigns_zero_flag_both_ways() {
    let mut mem = Memory::new();
    let mut cpu = boot(&mut mem);

    mem.write(0xE000, LDA_IM);
    mem.write(0xE001, 0x00);
    mem.write(0xE002, LDA_IM);
    mem.write(0xE003, 0x01);

    cpu.execute(4, &mut mem).unwrap();

    // The second load must clear the zero flag the first one set.
    assert_eq!(cpu.a, 0x01);
    assert!(!cpu.p.zero_flag());
}
