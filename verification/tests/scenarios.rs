//! End-to-end programs run through `execute` with exact cycle budgets.

use emulator_6502::consts::{
    ADC_IM, BNE, CMP_IM, CPX_IM, INX, JMP_IND, JSR, LDA_IM, LDA_ZPX, LDX_IM, RTS,
};
use emulator_6502::cpu::{EmuError, CPU};
use emulator_6502::memory::Memory;

fn boot(mem: &mut Memory) -> CPU {
    mem.write(0xFFFC, 0x00);
    mem.write(0xFFFD, 0xE0);
    let mut cpu = CPU::default();
    cpu.reset(mem);
    cpu
}

#[test]
fn scenario_lda_immediate_sets_flags() {
    let mut mem = Memory::new();
    let mut cpu = boot(&mut mem);

    mem.write(0xE000, LDA_IM);
    mem.write(0xE001, 0x99);

    cpu.execute(2, &mut mem).unwrap();

    assert_eq!(cpu.a, 0x99);
    assert!(!cpu.p.zero_flag());
    assert!(cpu.p.negative_flag());
}

#[test]
fn scenario_lda_indirect_y_page_cross() {
    let mut mem = Memory::new();
    let mut cpu = boot(&mut mem);

    cpu.y = 1;
    mem.write(0xE000, 0xB1);
    mem.write(0xE001, 0x86);
    mem.write(0x86, 0xFF);
    mem.write(0x87, 0x1F);
    mem.write(0x2000, 0x99);

    cpu.execute(6, &mut mem).unwrap();

    assert_eq!(cpu.a, 0x99);
}

#[test]
fn scenario_adc_signed_overflow() {
    let mut mem = Memory::new();
    let mut cpu = boot(&mut mem);

    cpu.a = 0x50;
    cpu.p.set_carry(false);
    mem.write(0xE000, ADC_IM);
    mem.write(0xE001, 0x50);

    cpu.execute(2, &mut mem).unwrap();

    assert_eq!(cpu.a, 0xA0);
    assert!(cpu.p.overflow_flag());
    assert!(cpu.p.negative_flag());
    assert!(!cpu.p.carry_flag());
    assert!(!cpu.p.zero_flag());
}

#[test]
fn scenario_cmp_equal() {
    let mut mem = Memory::new();
    let mut cpu = boot(&mut mem);

    cpu.a = 0xFF;
    mem.write(0xE000, CMP_IM);
    mem.write(0xE001, 0xFF);

    cpu.execute(2, &mut mem).unwrap();

    assert!(cpu.p.carry_flag());
    assert!(cpu.p.zero_flag());
    assert!(!cpu.p.negative_flag());
}

#[test]
fn scenario_jsr_rts_nesting() {
    let mut mem = Memory::new();
    let mut cpu = boot(&mut mem);

    cpu.x = 0x77;
    // JSR $E009, where the subroutine loads X with zero and returns.
    mem.write(0xE000, JSR);
    mem.write(0xE001, 0x09);
    mem.write(0xE002, 0xE0);
    mem.write(0xE009, LDX_IM);
    mem.write(0xE00A, 0x00);
    mem.write(0xE00B, RTS);

    // JSR 6 + LDX 2 + RTS 6.
    cpu.execute(14, &mut mem).unwrap();

    assert_eq!(cpu.x, 0x00);
    assert_eq!(cpu.pc, 0xE003);
    assert_eq!(cpu.sp, 0xFF);
    // The pushed return address is the word after the JSR opcode ($E002),
    // high byte at the old top of stack.
    assert_eq!(mem.read(0x01FF), 0xE0);
    assert_eq!(mem.read(0x01FE), 0x02);
}

#[test]
fn scenario_count_loop_with_branch_page_cross() {
    let mut mem = Memory::new();
    mem.write(0xFFFC, 0xFA);
    mem.write(0xFFFD, 0xE0);
    let mut cpu = CPU::default();
    cpu.reset(&mem);

    // LDX #0; loop: INX; CPX #5; BNE loop — with the backward branch
    // crossing from page $E1 back into page $E0.
    mem.write(0xE0FA, LDX_IM);
    mem.write(0xE0FB, 0x00);
    mem.write(0xE0FC, INX);
    mem.write(0xE0FD, CPX_IM);
    mem.write(0xE0FE, 0x05);
    mem.write(0xE0FF, BNE);
    mem.write(0xE100, 0xFB);

    // LDX 2, five INX and five CPX at 2 each, four taken page-crossing
    // branches at 4, one final untaken branch at 2.
    cpu.execute(40, &mut mem).unwrap();

    assert_eq!(cpu.x, 5);
    assert!(cpu.p.zero_flag());
    assert!(!cpu.p.negative_flag());
    assert_eq!(cpu.pc, 0xE101);
}

#[test]
fn scenario_count_loop_same_page() {
    let mut mem = Memory::new();
    let mut cpu = boot(&mut mem);

    mem.write(0xE000, LDX_IM);
    mem.write(0xE001, 0x00);
    mem.write(0xE002, INX);
    mem.write(0xE003, CPX_IM);
    mem.write(0xE004, 0x05);
    mem.write(0xE005, BNE);
    mem.write(0xE006, 0xFB);

    // As above, but the taken branches stay on the page and cost 3.
    cpu.execute(36, &mut mem).unwrap();

    assert_eq!(cpu.x, 5);
    assert!(cpu.p.zero_flag());
    assert!(!cpu.p.negative_flag());
}

#[test]
fn scenario_zero_page_x_wraps_not_into_page_one() {
    let mut mem = Memory::new();
    let mut cpu = boot(&mut mem);

    // LDA $FE,X with X = 3 must read $01, not $0101.
    cpu.x = 3;
    mem.write(0xE000, LDA_ZPX);
    mem.write(0xE001, 0xFE);
    mem.write(0x0001, 0x77);
    mem.write(0x0101, 0x55);

    cpu.execute(4, &mut mem).unwrap();

    assert_eq!(cpu.a, 0x77);
}

#[test]
fn scenario_indirect_jmp_page_wrap_bug() {
    let mut mem = Memory::new();
    let mut cpu = boot(&mut mem);

    // JMP ($02FF): the low byte comes from $02FF, the high byte from $0200
    // — not from $0300.
    mem.write(0xE000, JMP_IND);
    mem.write(0xE001, 0xFF);
    mem.write(0xE002, 0x02);
    mem.write(0x02FF, 0x34);
    mem.write(0x0200, 0x12);
    mem.write(0x0300, 0x66);

    cpu.execute(5, &mut mem).unwrap();

    assert_eq!(cpu.pc, 0x1234);
}

#[test]
fn invalid_opcode_reports_byte_and_pc() {
    let mut mem = Memory::new();
    let mut cpu = boot(&mut mem);

    mem.write(0xE000, 0x02);

    assert_eq!(
        cpu.execute(2, &mut mem),
        Err(EmuError::InvalidOpcode { byte: 0x02, pc: 0xE000 })
    );
}

#[test]
fn underflow_leaves_machine_untouched() {
    let mut mem = Memory::new();
    let mut cpu = boot(&mut mem);

    // JSR costs 6; one cycle is not enough, and nothing may change.
    mem.write(0xE000, JSR);
    mem.write(0xE001, 0x09);
    mem.write(0xE002, 0xE0);

    assert_eq!(cpu.execute(1, &mut mem), Err(EmuError::CycleUnderflow));
    assert_eq!(cpu.pc, 0xE000);
    assert_eq!(cpu.sp, 0xFF);
    assert_eq!(mem.read(0x01FF), 0x00);
    assert_eq!(mem.read(0x01FE), 0x00);
}

#[test]
fn reset_seeds_pc_and_sp() {
    let mut mem = Memory::new();
    mem.write(0xFFFC, 0x34);
    mem.write(0xFFFD, 0x12);

    let mut cpu = CPU::default();
    cpu.a = 0x55;
    cpu.p.set_carry(true);
    cpu.reset(&mem);

    assert_eq!(cpu.pc, 0x1234);
    assert_eq!(cpu.sp, 0xFF);
    assert_eq!(cpu.a, 0x55);
    assert!(cpu.p.carry_flag());
}

#[test]
fn default_cpu_is_all_zero() {
    let cpu = CPU::default();
    assert_eq!(cpu.pc, 0);
    assert_eq!(cpu.sp, 0);
    assert_eq!(cpu.a, 0);
    assert_eq!(cpu.x, 0);
    assert_eq!(cpu.y, 0);
    assert!(!cpu.p.carry_flag());
    assert!(!cpu.p.zero_flag());
    assert!(!cpu.p.negative_flag());
}

#[test]
fn memory_starts_zeroed_and_round_trips() {
    let mut mem = Memory::new();
    assert_eq!(mem.read(0x0000), 0);
    assert_eq!(mem.read(0xFFFF), 0);
    mem.write(0xABCD, 0x5A);
    assert_eq!(mem.read(0xABCD), 0x5A);
    assert_eq!(mem.read(0xABCC), 0x00);
}

#[test]
fn indx_pointer_fetch_wraps_in_zero_page() {
    let mut mem = Memory::new();
    let mut cpu = boot(&mut mem);

    // LDA ($FF,X) with X = 0: the pointer word is read from $FF and $00,
    // not from $FF and $0100.
    mem.write(0xE000, 0xA1);
    mem.write(0xE001, 0xFF);
    mem.write(0x00FF, 0x20);
    mem.write(0x0000, 0x30);
    mem.write(0x0100, 0x55);
    mem.write(0x3020, 0x99);

    cpu.execute(6, &mut mem).unwrap();

    assert_eq!(cpu.a, 0x99);
}

#[test]
fn indy_pointer_fetch_wraps_in_zero_page() {
    let mut mem = Memory::new();
    let mut cpu = boot(&mut mem);

    // LDA ($FF),Y: the pointer word is read from $FF and $00.
    cpu.y = 0x01;
    mem.write(0xE000, 0xB1);
    mem.write(0xE001, 0xFF);
    mem.write(0x00FF, 0x20);
    mem.write(0x0000, 0x30);
    mem.write(0x3021, 0x99);

    cpu.execute(5, &mut mem).unwrap();

    assert_eq!(cpu.a, 0x99);
}
