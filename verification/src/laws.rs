//! The quantified laws of the executor, proved against the specification
//! interpreter: the documented cycle counts, the ADC and CMP flag rules, the
//! stack and subroutine round trips, the zero-page indexing wrap, and the
//! indirect-JMP page-wrap quirk.

use vstd::prelude::*;
use crate::consts::{JSR, PHA, PLA, RTS};
use crate::isa::{spec_decode, Mode, Op};
use crate::model::{
    after_fetch, branch_taken, branch_target, byte_at, same_page, spec_adc, spec_compare,
    spec_operand, spec_resolve, spec_step, stack_addr, with_zn, word_le, wrap16, wrap8, Machine,
};

verus! {

/// The addressing modes each mnemonic is documented with; the decoder
/// produces no pair outside this table.
pub open spec fn is_documented(op: Op, mode: Mode) -> bool {
    match op {
        Op::Lda | Op::And | Op::Eor | Op::Ora | Op::Adc | Op::Sbc | Op::Cmp => mode
            == Mode::Immediate || mode == Mode::ZeroPage || mode == Mode::ZeroPageX || mode
            == Mode::Absolute || mode == Mode::AbsoluteX || mode == Mode::AbsoluteY || mode
            == Mode::IndirectX || mode == Mode::IndirectY,
        Op::Sta => mode == Mode::ZeroPage || mode == Mode::ZeroPageX || mode == Mode::Absolute
            || mode == Mode::AbsoluteX || mode == Mode::AbsoluteY || mode == Mode::IndirectX
            || mode == Mode::IndirectY,
        Op::Ldx => mode == Mode::Immediate || mode == Mode::ZeroPage || mode == Mode::ZeroPageY
            || mode == Mode::Absolute || mode == Mode::AbsoluteY,
        Op::Ldy => mode == Mode::Immediate || mode == Mode::ZeroPage || mode == Mode::ZeroPageX
            || mode == Mode::Absolute || mode == Mode::AbsoluteX,
        Op::Stx => mode == Mode::ZeroPage || mode == Mode::ZeroPageY || mode == Mode::Absolute,
        Op::Sty => mode == Mode::ZeroPage || mode == Mode::ZeroPageX || mode == Mode::Absolute,
        Op::Bit => mode == Mode::ZeroPage || mode == Mode::Absolute,
        Op::Cpx | Op::Cpy => mode == Mode::Immediate || mode == Mode::ZeroPage || mode
            == Mode::Absolute,
        Op::Inc | Op::Dec => mode == Mode::ZeroPage || mode == Mode::ZeroPageX || mode
            == Mode::Absolute || mode == Mode::AbsoluteX,
        Op::Asl | Op::Lsr | Op::Rol | Op::Ror => mode == Mode::Accumulator || mode
            == Mode::ZeroPage || mode == Mode::ZeroPageX || mode == Mode::Absolute || mode
            == Mode::AbsoluteX,
        Op::Jmp => mode == Mode::Absolute || mode == Mode::Indirect,
        Op::Jsr => mode == Mode::Absolute,
        Op::Bcc | Op::Bcs | Op::Beq | Op::Bmi | Op::Bne | Op::Bpl | Op::Bvc | Op::Bvs => mode
            == Mode::Relative,
        _ => mode == Mode::Implied,
    }
}

/// The decoder stays within the documented mnemonic/mode table.
#[verifier::rlimit(100)]
pub proof fn lemma_decode_documented(b: u8)
    ensures
        spec_decode(b) matches Some((op, mode)) ==> is_documented(op, mode),
{
}

/// The documented cycle count of a read-class instruction, before any
/// page-cross penalty.
pub open spec fn read_cycles(mode: Mode) -> nat {
    match mode {
        Mode::Immediate => 2,
        Mode::ZeroPage => 3,
        Mode::ZeroPageX | Mode::ZeroPageY => 4,
        Mode::Absolute => 4,
        Mode::AbsoluteX | Mode::AbsoluteY => 4,
        Mode::IndirectX => 6,
        Mode::IndirectY => 5,
        _ => 0,
    }
}

/// The documented cycle count of a store: one above the read in the indexed
/// modes, the spurious read always billed.
pub open spec fn store_cycles(mode: Mode) -> nat {
    match mode {
        Mode::ZeroPage => 3,
        Mode::ZeroPageX | Mode::ZeroPageY => 4,
        Mode::Absolute => 4,
        Mode::AbsoluteX | Mode::AbsoluteY => 5,
        Mode::IndirectX => 6,
        Mode::IndirectY => 6,
        _ => 0,
    }
}

/// The documented cycle count of a memory read-modify-write.
pub open spec fn rmw_cycles(mode: Mode) -> nat {
    match mode {
        Mode::ZeroPage => 5,
        Mode::ZeroPageX => 6,
        Mode::Absolute => 6,
        Mode::AbsoluteX => 7,
        _ => 0,
    }
}

/// The documented total cycle count of an instruction, taken against the
/// machine state `m` just after the opcode fetch: reads pay one extra cycle
/// when indexing crosses a page; branches pay one when taken and one more
/// when the destination leaves the page.
pub open spec fn documented_cycles(m: Machine, op: Op, mode: Mode) -> nat {
    let crossed = spec_resolve(m.mem, m.pc, m.x, m.y, mode).crossed;
    let cross_pen: nat = if crossed {
        1
    } else {
        0
    };
    match op {
        Op::Lda | Op::Ldx | Op::Ldy | Op::And | Op::Eor | Op::Ora | Op::Adc | Op::Sbc | Op::Cmp
            | Op::Cpx | Op::Cpy | Op::Bit => (read_cycles(mode) + cross_pen) as nat,
        Op::Sta | Op::Stx | Op::Sty => store_cycles(mode),
        Op::Inc | Op::Dec => rmw_cycles(mode),
        Op::Asl | Op::Lsr | Op::Rol | Op::Ror => if mode == Mode::Accumulator {
            2
        } else {
            rmw_cycles(mode)
        },
        Op::Pha | Op::Php => 3,
        Op::Pla | Op::Plp => 4,
        Op::Jmp => if mode == Mode::Absolute {
            3
        } else {
            5
        },
        Op::Jsr => 6,
        Op::Rts => 6,
        Op::Brk => 7,
        Op::Rti => 6,
        Op::Bcc | Op::Bcs | Op::Beq | Op::Bmi | Op::Bne | Op::Bpl | Op::Bvc | Op::Bvs => {
            let off = byte_at(m.mem, m.pc);
            let pc2 = wrap16(m.pc + 1);
            if !branch_taken(op, m.p) {
                2
            } else if same_page(pc2, branch_target(pc2, off)) {
                3
            } else {
                4
            }
        },
        _ => 2,
    }
}

/// Every step consumes exactly the documented cycle count of the
/// instruction it decodes.
#[verifier::rlimit(100)]
pub proof fn lemma_cycles_consumed_are_documented(m: Machine)
    ensures
        ({
            let d = spec_decode(byte_at(m.mem, m.pc));
            d matches Some((op, mode)) ==> spec_step(m) matches Some(sr) && sr.1
                == documented_cycles(after_fetch(m), op, mode)
        }),
{
    lemma_decode_documented(byte_at(m.mem, m.pc));
}

/// ADC adds the accumulator, the resolved operand and the carry-in: the new
/// accumulator is the sum mod 256, C is the carry out of the 9-bit sum, V
/// follows the canonical signed-overflow rule, and Z and N reflect the
/// result. This holds in every addressing mode.
pub proof fn lemma_adc_arithmetic(m: Machine, mode: Mode)
    ensures
        ({
            let o = spec_operand(m.mem, m.pc, m.x, m.y, mode);
            let m2 = spec_adc(m, mode).0;
            let cin: int = if m.p.c {
                1int
            } else {
                0int
            };
            &&& m2.a == (m.a + o.value + cin) % 256
            &&& m2.p.c == (m.a + o.value + cin >= 256)
            &&& m2.p.v == (((m.a ^ m2.a) & (o.value ^ m2.a) & 0x80) != 0)
            &&& m2.p.z == (m2.a == 0)
            &&& m2.p.n == ((m2.a & 0x80) != 0)
        }),
{
}

/// CMP compares the accumulator with the resolved operand: C is `A >= M`,
/// Z is `A == M`, and N is bit 7 of `A - M` taken mod 256, in every
/// addressing mode.
pub proof fn lemma_cmp_flags(m: Machine, mode: Mode)
    ensures
        ({
            let o = spec_operand(m.mem, m.pc, m.x, m.y, mode);
            let m2 = spec_compare(m, Op::Cmp, mode).0;
            &&& m2.p.c == (m.a >= o.value)
            &&& m2.p.z == (m.a == o.value)
            &&& m2.p.n == ((((m.a - o.value) % 256) as u8 & 0x80) != 0)
        }),
{
    let o = spec_operand(m.mem, m.pc, m.x, m.y, mode);
    assert((m.a - o.value) % 256 == (m.a + 256 - o.value) % 256) by (nonlinear_arith);
}

/// PHA followed by PLA restores the accumulator and the stack pointer; only
/// Z and N change, reflecting the accumulator. The pushed byte must not
/// land on the PLA opcode itself.
pub proof fn lemma_pha_pla_roundtrip(m: Machine)
    requires
        m.mem.len() == 0x10000,
        byte_at(m.mem, m.pc) == PHA,
        byte_at(m.mem, wrap16(m.pc + 1)) == PLA,
        wrap16(m.pc + 1) != stack_addr(m.sp),
    ensures
        ({
            spec_step(m) matches Some((m1, c1)) && spec_step(m1) matches Some((m2, c2)) && {
                &&& m2.a == m.a
                &&& m2.x == m.x
                &&& m2.y == m.y
                &&& m2.sp == m.sp
                &&& m2.p == with_zn(m.p, m.a)
                &&& m2.pc == wrap16(m.pc + 2)
                &&& c1 + c2 == 7
            }
        }),
{
    assert(wrap8(wrap8(m.sp + 255) + 1) == m.sp);
    assert(wrap16(wrap16(m.pc + 1) + 1) == wrap16(m.pc + 2));
    assert(spec_decode(byte_at(m.mem, m.pc)) == Some((Op::Pha, Mode::Implied)));
    let m1 = spec_step(m)->Some_0.0;
    assert(m1.mem == m.mem.update(stack_addr(m.sp) as int, m.a));
    assert(byte_at(m1.mem, m1.pc) == PLA);
    assert(spec_decode(byte_at(m1.mem, m1.pc)) == Some((Op::Pla, Mode::Implied)));
    assert(byte_at(m1.mem, stack_addr(wrap8(m1.sp + 1))) == m.a);
}

/// JSR to a subroutine that immediately returns with RTS brings the program
/// counter to the byte after the JSR operand, with the stack pointer
/// restored; the pushed return address (the word after the JSR opcode, plus
/// one) sits at the two old top-of-stack bytes. The stack bytes must not
/// overwrite the RTS opcode.
pub proof fn lemma_jsr_rts_roundtrip(m: Machine)
    requires
        m.mem.len() == 0x10000,
        byte_at(m.mem, m.pc) == JSR,
        ({
            let target = word_le(
                byte_at(m.mem, wrap16(m.pc + 1)),
                byte_at(m.mem, wrap16(m.pc + 2)),
            );
            &&& byte_at(m.mem, target) == RTS
            &&& target != stack_addr(m.sp)
            &&& target != stack_addr(wrap8(m.sp + 255))
        }),
    ensures
        ({
            spec_step(m) matches Some((m1, c1)) && spec_step(m1) matches Some((m2, c2)) && {
                &&& m2.pc == wrap16(m.pc + 3)
                &&& m2.sp == m.sp
                &&& m2.a == m.a
                &&& m2.p == m.p
                &&& byte_at(m1.mem, stack_addr(m.sp)) == wrap16(m.pc + 2) / 256
                &&& byte_at(m1.mem, stack_addr(wrap8(m.sp + 255))) == wrap16(m.pc + 2) % 256
                &&& c1 == 6
                &&& c2 == 6
            }
        }),
{
    assert(wrap16(wrap16(m.pc + 1) + 1) == wrap16(m.pc + 2));
    let ret = wrap16(m.pc + 2);
    assert(word_le((ret % 256) as u8, (ret / 256) as u8) == ret);
    assert(wrap8(wrap8(m.sp + 254) + 1) == wrap8(m.sp + 255));
    assert(wrap8(wrap8(m.sp + 254) + 2) == m.sp);
    assert(wrap16(ret + 1) == wrap16(m.pc + 3));
    assert(spec_decode(byte_at(m.mem, m.pc)) == Some((Op::Jsr, Mode::Absolute)));
    let target = word_le(byte_at(m.mem, wrap16(m.pc + 1)), byte_at(m.mem, wrap16(m.pc + 2)));
    let m1 = spec_step(m)->Some_0.0;
    assert(m1.pc == target);
    assert(m1.mem == m.mem.update(stack_addr(m.sp) as int, (ret / 256) as u8).update(
        stack_addr(wrap8(m.sp + 255)) as int,
        (ret % 256) as u8,
    ));
    assert(byte_at(m1.mem, m1.pc) == RTS);
    assert(spec_decode(byte_at(m1.mem, m1.pc)) == Some((Op::Rts, Mode::Implied)));
    assert(stack_addr(m.sp) != stack_addr(wrap8(m.sp + 255)));
    assert(byte_at(m1.mem, stack_addr(wrap8(m.sp + 255))) == (ret % 256) as u8);
    assert(byte_at(m1.mem, stack_addr(m.sp)) == (ret / 256) as u8);
}

/// Zero-page indexed addressing wraps within page zero: the effective
/// address is `(base + index) mod 256`, its high byte always zero.
pub proof fn lemma_zero_page_index_wraps(mem: Seq<u8>, pc: u16, x: u8, y: u8)
    ensures
        spec_resolve(mem, pc, x, y, Mode::ZeroPageX).addr == wrap8(byte_at(mem, pc) + x) as u16,
        spec_resolve(mem, pc, x, y, Mode::ZeroPageX).addr < 0x0100,
        spec_resolve(mem, pc, x, y, Mode::ZeroPageY).addr == wrap8(byte_at(mem, pc) + y) as u16,
        spec_resolve(mem, pc, x, y, Mode::ZeroPageY).addr < 0x0100,
{
}

/// The indirect-JMP page-wrap quirk: when the pointer's low byte is `$FF`,
/// the target's low byte comes from the pointer and its high byte from the
/// first byte of the same page, not from the next page.
pub proof fn lemma_indirect_jmp_page_wrap(mem: Seq<u8>, pc: u16, x: u8, y: u8)
    requires
        byte_at(mem, pc) == 0xFF,
    ensures
        ({
            let hi = byte_at(mem, wrap16(pc + 1));
            spec_resolve(mem, pc, x, y, Mode::Indirect).addr == word_le(
                byte_at(mem, word_le(0xFF, hi)),
                byte_at(mem, word_le(0x00, hi)),
            )
        }),
{
}

} // verus!

