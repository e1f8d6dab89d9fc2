//! Stack instructions, status-register packing, transfers, branches, jumps,
//! stores, flag instructions, BRK and RTI.

use emulator_6502::consts::{
    BCC, BCS, BEQ, BMI, BNE, BPL, BRK, BVC, BVS, CLC, CLV, JMP_ABS, LDA_IM, NOP, PHA, PHP, PLA,
    PLP, RTI, SEC, SED, SEI, STA_ABSX, STA_ZP, STX_ZP, STY_ZP, TAX, TSX, TXS,
};
use emulator_6502::cpu::{EmuError, CPU};
use emulator_6502::memory::Memory;
use emulator_6502::status::Status;

fn boot(mem: &mut Memory) -> CPU {
    mem.write(0xFFFC, 0x00);
    mem.write(0xFFFD, 0xE0);
    let mut cpu = CPU::default();
    cpu.reset(mem);
    cpu
}

#[test]
fn pha_pla_round_trip_restores_accumulator() {
    let mut mem = Memory::new();
    let mut cpu = boot(&mut mem);

    mem.write(0xE000, LDA_IM);
    mem.write(0xE001, 0x42);
    mem.write(0xE002, PHA);
    mem.write(0xE003, LDA_IM);
    mem.write(0xE004, 0x00);
    mem.write(0xE005, PLA);

    // 2 + 3 + 2 + 4.
    cpu.execute(11, &mut mem).unwrap();

    assert_eq!(cpu.a, 0x42);
    assert_eq!(cpu.sp, 0xFF);
    assert!(!cpu.p.zero_flag());
    assert!(!cpu.p.negative_flag());
}

#[test]
fn pha_writes_into_page_one() {
    let mut mem = Memory::new();
    let mut cpu = boot(&mut mem);

    cpu.a = 0xAB;
    mem.write(0xE000, PHA);

    cpu.execute(3, &mut mem).unwrap();

    assert_eq!(mem.read(0x01FF), 0xAB);
    assert_eq!(cpu.sp, 0xFE);
}

#[test]
fn php_pushes_break_and_bit_five_high() {
    let mut mem = Memory::new();
    let mut cpu = boot(&mut mem);

    mem.write(0xE000, SEC);
    mem.write(0xE001, PHP);

    cpu.execute(5, &mut mem).unwrap();

    // Carry plus the forced break and unused bits: %0011_0001.
    assert_eq!(mem.read(0x01FF), 0x31);
    assert_eq!(cpu.sp, 0xFE);
}

#[test]
fn plp_masks_break_and_bit_five() {
    let mut mem = Memory::new();
    let mut cpu = boot(&mut mem);

    cpu.sp = 0xFE;
    mem.write(0x01FF, 0xFF);
    mem.write(0xE000, PLP);

    cpu.execute(4, &mut mem).unwrap();

    assert!(cpu.p.carry_flag());
    assert!(cpu.p.zero_flag());
    assert!(cpu.p.interrupt_flag());
    assert!(cpu.p.decimal_flag());
    assert!(cpu.p.overflow_flag());
    assert!(cpu.p.negative_flag());
    assert!(!cpu.p.break_flag());
    assert_eq!(cpu.sp, 0xFF);
}

#[test]
fn stack_pointer_wraps_on_push_and_pull() {
    let mut mem = Memory::new();
    let mut cpu = boot(&mut mem);

    cpu.sp = 0x00;
    cpu.a = 0x7E;
    mem.write(0xE000, PHA);

    cpu.execute(3, &mut mem).unwrap();

    assert_eq!(mem.read(0x0100), 0x7E);
    assert_eq!(cpu.sp, 0xFF);

    mem.write(0xE001, PLA);
    cpu.a = 0x00;

    cpu.execute(4, &mut mem).unwrap();

    assert_eq!(cpu.a, 0x7E);
    assert_eq!(cpu.sp, 0x00);
}

#[test]
fn txs_copies_without_flags() {
    let mut mem = Memory::new();
    let mut cpu = boot(&mut mem);

    cpu.x = 0x00;
    cpu.sp = 0x10;
    mem.write(0xE000, TXS);

    cpu.execute(2, &mut mem).unwrap();

    assert_eq!(cpu.sp, 0x00);
    // A transfer of zero through TXS must not raise the zero flag.
    assert!(!cpu.p.zero_flag());
}

#[test]
fn tsx_and_tax_set_flags() {
    let mut mem = Memory::new();
    let mut cpu = boot(&mut mem);

    mem.write(0xE000, TSX);
    mem.write(0xE001, TAX);

    // TSX copies $FF into X and sets N; TAX then copies A (zero) and sets Z.
    cpu.execute(4, &mut mem).unwrap();

    assert_eq!(cpu.x, 0x00);
    assert!(cpu.p.zero_flag());
    assert!(!cpu.p.negative_flag());
}

#[test]
fn stores_write_registers() {
    let mut mem = Memory::new();
    let mut cpu = boot(&mut mem);

    cpu.a = 0x11;
    cpu.x = 0x22;
    cpu.y = 0x33;
    mem.write(0xE000, STA_ZP);
    mem.write(0xE001, 0x40);
    mem.write(0xE002, STX_ZP);
    mem.write(0xE003, 0x41);
    mem.write(0xE004, STY_ZP);
    mem.write(0xE005, 0x42);

    cpu.execute(9, &mut mem).unwrap();

    assert_eq!(mem.read(0x0040), 0x11);
    assert_eq!(mem.read(0x0041), 0x22);
    assert_eq!(mem.read(0x0042), 0x33);
}

#[test]
fn sta_absolute_x_always_costs_five() {
    let mut mem = Memory::new();
    let mut cpu = boot(&mut mem);

    cpu.a = 0x77;
    cpu.x = 0x01;
    mem.write(0xE000, STA_ABSX);
    mem.write(0xE001, 0x00);
    mem.write(0xE002, 0x20);

    // No page cross, yet the indexed store bills the spurious read.
    assert_eq!(cpu.execute(4, &mut mem), Err(EmuError::CycleUnderflow));
    assert_eq!(mem.read(0x2001), 0x00);

    cpu.execute(5, &mut mem).unwrap();
    assert_eq!(mem.read(0x2001), 0x77);
}

#[test]
fn jmp_absolute_loads_pc() {
    let mut mem = Memory::new();
    let mut cpu = boot(&mut mem);

    mem.write(0xE000, JMP_ABS);
    mem.write(0xE001, 0x34);
    mem.write(0xE002, 0x12);

    cpu.execute(3, &mut mem).unwrap();

    assert_eq!(cpu.pc, 0x1234);
}

#[test]
fn branch_not_taken_costs_two() {
    let mut mem = Memory::new();
    let mut cpu = boot(&mut mem);

    mem.write(0xE000, BEQ);
    mem.write(0xE001, 0x10);

    cpu.execute(2, &mut mem).unwrap();

    assert_eq!(cpu.pc, 0xE002);
}

#[test]
fn branch_taken_forward() {
    let mut mem = Memory::new();
    let mut cpu = boot(&mut mem);

    cpu.p.set_zero(true);
    mem.write(0xE000, BEQ);
    mem.write(0xE001, 0x10);

    cpu.execute(3, &mut mem).unwrap();

    assert_eq!(cpu.pc, 0xE012);
}

#[test]
fn branch_conditions_follow_their_flags() {
    let mut mem = Memory::new();
    let mut cpu = boot(&mut mem);

    // Carry clear: BCC taken, BCS not.
    mem.write(0xE000, BCC);
    mem.write(0xE001, 0x02);
    mem.write(0xE004, BCS);
    mem.write(0xE005, 0x10);
    // 3 (taken) + 2 (not taken).
    cpu.execute(5, &mut mem).unwrap();
    assert_eq!(cpu.pc, 0xE006);

    // Negative set: BMI taken, BPL not.
    cpu.p.set_negative(true);
    cpu.pc = 0xE006;
    mem.write(0xE006, BMI);
    mem.write(0xE007, 0x02);
    mem.write(0xE00A, BPL);
    mem.write(0xE00B, 0x10);
    cpu.execute(5, &mut mem).unwrap();
    assert_eq!(cpu.pc, 0xE00C);

    // Overflow clear: BVC taken, BVS not.
    cpu.pc = 0xE00C;
    mem.write(0xE00C, BVC);
    mem.write(0xE00D, 0x02);
    mem.write(0xE010, BVS);
    mem.write(0xE011, 0x10);
    cpu.execute(5, &mut mem).unwrap();
    assert_eq!(cpu.pc, 0xE012);

    // Zero clear: BNE taken backward.
    cpu.pc = 0xE012;
    mem.write(0xE012, BNE);
    mem.write(0xE013, 0xFC);
    cpu.execute(3, &mut mem).unwrap();
    assert_eq!(cpu.pc, 0xE010);
}

#[test]
fn flag_instructions_set_and_clear() {
    let mut mem = Memory::new();
    let mut cpu = boot(&mut mem);

    cpu.p.set_overflow(true);
    mem.write(0xE000, SEC);
    mem.write(0xE001, SED);
    mem.write(0xE002, SEI);
    mem.write(0xE003, CLV);
    mem.write(0xE004, CLC);

    cpu.execute(10, &mut mem).unwrap();

    assert!(!cpu.p.carry_flag());
    assert!(cpu.p.decimal_flag());
    assert!(cpu.p.interrupt_flag());
    assert!(!cpu.p.overflow_flag());
}

#[test]
fn nop_spends_two_cycles() {
    let mut mem = Memory::new();
    let mut cpu = boot(&mut mem);

    mem.write(0xE000, NOP);

    cpu.execute(2, &mut mem).unwrap();

    assert_eq!(cpu.pc, 0xE001);
    assert_eq!(cpu.a, 0);
}

#[test]
fn brk_pushes_state_and_takes_the_vector() {
    let mut mem = Memory::new();
    let mut cpu = boot(&mut mem);

    mem.write(0xFFFE, 0x00);
    mem.write(0xFFFF, 0x90);
    mem.write(0xE000, BRK);

    cpu.execute(7, &mut mem).unwrap();

    assert_eq!(cpu.pc, 0x9000);
    assert!(cpu.p.break_flag());
    assert!(cpu.p.interrupt_flag());
    assert_eq!(cpu.sp, 0xFC);
    // The pushed program counter skips the padding byte after BRK.
    assert_eq!(mem.read(0x01FF), 0xE0);
    assert_eq!(mem.read(0x01FE), 0x02);
    // The pushed status byte carries B and bit 5 high.
    assert_eq!(mem.read(0x01FD), 0x30);
}

#[test]
fn rti_restores_flags_and_pc_without_increment() {
    let mut mem = Memory::new();
    let mut cpu = boot(&mut mem);

    cpu.sp = 0xFC;
    mem.write(0x01FD, 0xC1);
    mem.write(0x01FE, 0x34);
    mem.write(0x01FF, 0x12);
    mem.write(0xE000, RTI);

    cpu.execute(6, &mut mem).unwrap();

    assert_eq!(cpu.pc, 0x1234);
    assert_eq!(cpu.sp, 0xFF);
    assert!(cpu.p.carry_flag());
    assert!(cpu.p.overflow_flag());
    assert!(cpu.p.negative_flag());
    assert!(!cpu.p.break_flag());
    assert!(!cpu.p.zero_flag());
}

#[test]
fn status_setters_assign_both_ways() {
    let mut s = Status::default();

    s.set_carry(true);
    s.set_zero(true);
    s.set_interrupt(true);
    s.set_decimal(true);
    s.set_break(true);
    s.set_overflow(true);
    s.set_negative(true);
    assert!(s.carry_flag());
    assert!(s.zero_flag());
    assert!(s.interrupt_flag());
    assert!(s.decimal_flag());
    assert!(s.break_flag());
    assert!(s.overflow_flag());
    assert!(s.negative_flag());

    s.set_carry(false);
    s.set_zero(false);
    assert!(!s.carry_flag());
    assert!(!s.zero_flag());
    assert!(s.interrupt_flag());
}

#[test]
fn clearing_one_flag_keeps_the_others() {
    let mut s = Status::default();
    s.set_carry(true);
    s.set_negative(true);
    s.set_zero(false);
    assert!(s.carry_flag());
    assert!(s.negative_flag());
    assert!(!s.zero_flag());
}
