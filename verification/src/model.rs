//! The mathematical model of the processor: a machine state and a
//! specification-level interpreter that gives, for every decodable opcode,
//! the next state and the exact number of bus cycles the instruction
//! consumes. The executable executor in `cpu` is proved to follow this
//! model step for step.

use vstd::prelude::*;
use crate::isa::{Mode, Op};
use crate::status::{spec_pulled_status, spec_pushed_bits, Status};

verus! {

/// The complete machine state: the register file and the 64 KiB memory.
pub ghost struct Machine {
    /// Program counter.
    pub pc: u16,
    /// Stack pointer; the stack occupies `$0100 + SP`.
    pub sp: u8,
    /// Accumulator.
    pub a: u8,
    /// Index register X.
    pub x: u8,
    /// Index register Y.
    pub y: u8,
    /// Status flags.
    pub p: Status,
    /// The memory contents, one byte per 16-bit address.
    pub mem: Seq<u8>,
}

/// Addition reduced into an 8-bit register.
pub open spec fn wrap8(v: int) -> u8 {
    (v % 256) as u8
}

/// Addition reduced into a 16-bit address; the program counter and effective
/// addresses wrap this way.
pub open spec fn wrap16(v: int) -> u16 {
    (v % 65536) as u16
}

/// The byte stored at `addr`.
pub open spec fn byte_at(mem: Seq<u8>, addr: u16) -> u8 {
    mem[addr as int]
}

/// A 16-bit word assembled little-endian from two bytes.
pub open spec fn word_le(lo: u8, hi: u8) -> u16 {
    (lo + 256 * hi) as u16
}

/// Two addresses lie on the same 256-byte page.
pub open spec fn same_page(a: u16, b: u16) -> bool {
    a / 256 == b / 256
}

/// The address of the stack byte selected by the stack pointer.
pub open spec fn stack_addr(sp: u8) -> u16 {
    (0x0100 + sp) as u16
}

/// The status register with Z and N assigned from an 8-bit result.
pub open spec fn with_zn(p: Status, v: u8) -> Status {
    Status { z: v == 0, n: v & 0x80 != 0, ..p }
}

/// What an addressing mode resolves to: the effective address, the program
/// counter after the operand bytes, the cycles the resolution itself costs
/// (operand fetches and pointer reads, without the opcode fetch and without
/// any page-cross penalty), and whether indexing crossed a page.
pub ghost struct Resolved {
    pub addr: u16,
    pub pc: u16,
    pub cycles: nat,
    pub crossed: bool,
}

/// Resolves an addressing mode against the state just after the opcode
/// fetch: `pc` points at the first operand byte. Zero-page indexed modes
/// wrap within page zero; the indirect mode reproduces the page-wrap quirk
/// of the NMOS indirect JMP. Modes without a memory operand resolve
/// vacuously; the decoder never pairs them with an instruction that
/// resolves an address.
pub open spec fn spec_resolve(mem: Seq<u8>, pc: u16, x: u8, y: u8, mode: Mode) -> Resolved {
    match mode {
        Mode::ZeroPage => Resolved {
            addr: byte_at(mem, pc) as u16,
            pc: wrap16(pc + 1),
            cycles: 1,
            crossed: false,
        },
        Mode::ZeroPageX => Resolved {
            addr: wrap8(byte_at(mem, pc) + x) as u16,
            pc: wrap16(pc + 1),
            cycles: 2,
            crossed: false,
        },
        Mode::ZeroPageY => Resolved {
            addr: wrap8(byte_at(mem, pc) + y) as u16,
            pc: wrap16(pc + 1),
            cycles: 2,
            crossed: false,
        },
        Mode::Absolute => Resolved {
            addr: word_le(byte_at(mem, pc), byte_at(mem, wrap16(pc + 1))),
            pc: wrap16(pc + 2),
            cycles: 2,
            crossed: false,
        },
        Mode::AbsoluteX => {
            let base = word_le(byte_at(mem, pc), byte_at(mem, wrap16(pc + 1)));
            let addr = wrap16(base + x);
            Resolved { addr, pc: wrap16(pc + 2), cycles: 2, crossed: !same_page(base, addr) }
        },
        Mode::AbsoluteY => {
            let base = word_le(byte_at(mem, pc), byte_at(mem, wrap16(pc + 1)));
            let addr = wrap16(base + y);
            Resolved { addr, pc: wrap16(pc + 2), cycles: 2, crossed: !same_page(base, addr) }
        },
        Mode::Indirect => {
            let lo = byte_at(mem, pc);
            let hi = byte_at(mem, wrap16(pc + 1));
            let ptr = word_le(lo, hi);
            // The page-wrap quirk: when the pointer's low byte is $FF, the
            // high byte of the target is read from $xx00 of the same page.
            let ptr_hi = if lo == 0xFF {
                word_le(0x00, hi)
            } else {
                wrap16(ptr + 1)
            };
            Resolved {
                addr: word_le(byte_at(mem, ptr), byte_at(mem, ptr_hi)),
                pc: wrap16(pc + 2),
                cycles: 4,
                crossed: false,
            }
        },
        Mode::IndirectX => {
            let zp = wrap8(byte_at(mem, pc) + x);
            let addr = word_le(byte_at(mem, zp as u16), byte_at(mem, wrap8(zp + 1) as u16));
            Resolved { addr, pc: wrap16(pc + 1), cycles: 4, crossed: false }
        },
        Mode::IndirectY => {
            let zp = byte_at(mem, pc);
            let base = word_le(byte_at(mem, zp as u16), byte_at(mem, wrap8(zp + 1) as u16));
            let addr = wrap16(base + y);
            Resolved { addr, pc: wrap16(pc + 1), cycles: 3, crossed: !same_page(base, addr) }
        },
        _ => Resolved { addr: 0, pc, cycles: 0, crossed: false },
    }
}

/// An operand fetched for a read-class instruction, with the program counter
/// after the operand bytes and the instruction's total cycle cost, opcode
/// fetch and page-cross penalty included.
pub ghost struct Operand {
    pub value: u8,
    pub pc: u16,
    pub cost: nat,
}

/// Fetches the operand of a read-class instruction. Indexed modes that cross
/// a page cost one extra cycle.
pub open spec fn spec_operand(mem: Seq<u8>, pc: u16, x: u8, y: u8, mode: Mode) -> Operand {
    if mode == Mode::Immediate {
        Operand { value: byte_at(mem, pc), pc: wrap16(pc + 1), cost: 2 }
    } else {
        let r = spec_resolve(mem, pc, x, y, mode);
        Operand {
            value: byte_at(mem, r.addr),
            pc: r.pc,
            cost: (2 + r.cycles + (if r.crossed {
                1int
            } else {
                0int
            })) as nat,
        }
    }
}

/// The extra cycle that store-class instructions always pay in the indexed
/// modes: the spurious read happens whether or not a page is crossed.
pub open spec fn store_penalty(mode: Mode) -> nat {
    if mode == Mode::AbsoluteX || mode == Mode::AbsoluteY || mode == Mode::IndirectY {
        1
    } else {
        0
    }
}

/// The 9-bit sum an ADC computes: accumulator plus operand plus carry-in.
pub open spec fn adc_sum(a: u8, operand: u8, cin: bool) -> int {
    a + operand + (if cin {
        1int
    } else {
        0int
    })
}

/// The transformed byte of a read-modify-write or accumulator shift.
pub open spec fn rmw_result(op: Op, v: u8, cin: bool) -> u8 {
    match op {
        Op::Inc => wrap8(v + 1),
        Op::Dec => wrap8(v + 255),
        Op::Asl => wrap8(2 * v),
        Op::Lsr => (v / 2) as u8,
        Op::Rol => wrap8(2 * v + (if cin {
            1int
        } else {
            0int
        })),
        Op::Ror => (v / 2 + (if cin {
            128int
        } else {
            0int
        })) as u8,
        _ => v,
    }
}

/// The carry flag after a read-modify-write or accumulator shift: shifts
/// move the outgoing bit into C, increments and decrements leave it alone.
pub open spec fn rmw_carry(op: Op, v: u8, c_old: bool) -> bool {
    match op {
        Op::Asl | Op::Rol => v & 0x80 != 0,
        Op::Lsr | Op::Ror => v & 0x01 != 0,
        _ => c_old,
    }
}

/// LDA, LDX, LDY: copy the operand into the register; assign Z and N.
pub open spec fn spec_load(m: Machine, op: Op, mode: Mode) -> (Machine, nat) {
    let o = spec_operand(m.mem, m.pc, m.x, m.y, mode);
    let m2 = match op {
        Op::Ldx => Machine { x: o.value, ..m },
        Op::Ldy => Machine { y: o.value, ..m },
        _ => Machine { a: o.value, ..m },
    };
    (Machine { pc: o.pc, p: with_zn(m.p, o.value), ..m2 }, o.cost)
}

/// STA, STX, STY: write the register to the effective address; no flags.
pub open spec fn spec_store(m: Machine, op: Op, mode: Mode) -> (Machine, nat) {
    let r = spec_resolve(m.mem, m.pc, m.x, m.y, mode);
    let v = match op {
        Op::Stx => m.x,
        Op::Sty => m.y,
        _ => m.a,
    };
    (
        Machine { pc: r.pc, mem: m.mem.update(r.addr as int, v), ..m },
        (2 + r.cycles + store_penalty(mode)) as nat,
    )
}

/// AND, EOR, ORA: bitwise combine the operand into the accumulator.
pub open spec fn spec_logic(m: Machine, op: Op, mode: Mode) -> (Machine, nat) {
    let o = spec_operand(m.mem, m.pc, m.x, m.y, mode);
    let a2 = match op {
        Op::And => m.a & o.value,
        Op::Eor => m.a ^ o.value,
        _ => m.a | o.value,
    };
    (Machine { pc: o.pc, a: a2, p: with_zn(m.p, a2), ..m }, o.cost)
}

/// BIT: Z from `A AND M`; N and V copied from bits 7 and 6 of the operand;
/// every other flag untouched.
pub open spec fn spec_bit(m: Machine, mode: Mode) -> (Machine, nat) {
    let o = spec_operand(m.mem, m.pc, m.x, m.y, mode);
    let p2 = Status {
        z: (m.a & o.value) == 0,
        n: o.value & 0x80 != 0,
        v: o.value & 0x40 != 0,
        ..m.p
    };
    (Machine { pc: o.pc, p: p2, ..m }, o.cost)
}

/// Binary add-with-carry of `operand` into the accumulator. C is the carry
/// out of the 9-bit sum; V is the canonical signed-overflow rule
/// `((A ^ result) & (operand ^ result) & $80) != 0`.
pub open spec fn spec_adc_with(m: Machine, operand: u8, pc2: u16, cost: nat) -> (Machine, nat) {
    let r = wrap8(adc_sum(m.a, operand, m.p.c));
    let p2 = Status {
        c: adc_sum(m.a, operand, m.p.c) >= 256,
        v: ((m.a ^ r) & (operand ^ r) & 0x80) != 0,
        z: r == 0,
        n: r & 0x80 != 0,
        ..m.p
    };
    (Machine { pc: pc2, a: r, p: p2, ..m }, cost)
}

/// ADC: add the memory operand with carry.
pub open spec fn spec_adc(m: Machine, mode: Mode) -> (Machine, nat) {
    let o = spec_operand(m.mem, m.pc, m.x, m.y, mode);
    spec_adc_with(m, o.value, o.pc, o.cost)
}

/// SBC: add the one's complement of the memory operand with carry.
pub open spec fn spec_sbc(m: Machine, mode: Mode) -> (Machine, nat) {
    let o = spec_operand(m.mem, m.pc, m.x, m.y, mode);
    spec_adc_with(m, !o.value, o.pc, o.cost)
}

/// CMP, CPX, CPY: compare a register against the operand without storing.
/// C is `reg >= M`, Z is `reg == M`, N is bit 7 of `reg - M` taken mod 256.
pub open spec fn spec_compare(m: Machine, op: Op, mode: Mode) -> (Machine, nat) {
    let o = spec_operand(m.mem, m.pc, m.x, m.y, mode);
    let reg = match op {
        Op::Cpx => m.x,
        Op::Cpy => m.y,
        _ => m.a,
    };
    let d = wrap8(reg + 256 - o.value);
    let p2 = Status { c: reg >= o.value, z: reg == o.value, n: d & 0x80 != 0, ..m.p };
    (Machine { pc: o.pc, p: p2, ..m }, o.cost)
}

/// INC, DEC, and the memory forms of ASL, LSR, ROL, ROR: read the byte,
/// transform it, write it back; Z and N from the result, C per the shift.
/// Absolute,X always pays the spurious-read cycle.
pub open spec fn spec_rmw(m: Machine, op: Op, mode: Mode) -> (Machine, nat) {
    let r = spec_resolve(m.mem, m.pc, m.x, m.y, mode);
    let v = byte_at(m.mem, r.addr);
    let nv = rmw_result(op, v, m.p.c);
    let p2 = Status { c: rmw_carry(op, v, m.p.c), z: nv == 0, n: nv & 0x80 != 0, ..m.p };
    (
        Machine { pc: r.pc, mem: m.mem.update(r.addr as int, nv), p: p2, ..m },
        (4 + r.cycles + (if mode == Mode::AbsoluteX {
            1int
        } else {
            0int
        })) as nat,
    )
}

/// The accumulator forms of ASL, LSR, ROL, ROR.
pub open spec fn spec_shift_acc(m: Machine, op: Op) -> (Machine, nat) {
    let nv = rmw_result(op, m.a, m.p.c);
    let p2 = Status { c: rmw_carry(op, m.a, m.p.c), z: nv == 0, n: nv & 0x80 != 0, ..m.p };
    (Machine { a: nv, p: p2, ..m }, 2)
}

/// The two-cycle register instructions: transfers, register increments and
/// decrements, the flag instructions, and NOP. TXS alone updates no flags.
pub open spec fn spec_reg_op(m: Machine, op: Op) -> (Machine, nat) {
    let m2 = match op {
        Op::Tax => Machine { x: m.a, p: with_zn(m.p, m.a), ..m },
        Op::Tay => Machine { y: m.a, p: with_zn(m.p, m.a), ..m },
        Op::Txa => Machine { a: m.x, p: with_zn(m.p, m.x), ..m },
        Op::Tya => Machine { a: m.y, p: with_zn(m.p, m.y), ..m },
        Op::Tsx => Machine { x: m.sp, p: with_zn(m.p, m.sp), ..m },
        Op::Txs => Machine { sp: m.x, ..m },
        Op::Inx => Machine { x: wrap8(m.x + 1), p: with_zn(m.p, wrap8(m.x + 1)), ..m },
        Op::Iny => Machine { y: wrap8(m.y + 1), p: with_zn(m.p, wrap8(m.y + 1)), ..m },
        Op::Dex => Machine { x: wrap8(m.x + 255), p: with_zn(m.p, wrap8(m.x + 255)), ..m },
        Op::Dey => Machine { y: wrap8(m.y + 255), p: with_zn(m.p, wrap8(m.y + 255)), ..m },
        Op::Clc => Machine { p: Status { c: false, ..m.p }, ..m },
        Op::Sec => Machine { p: Status { c: true, ..m.p }, ..m },
        Op::Cli => Machine { p: Status { i: false, ..m.p }, ..m },
        Op::Sei => Machine { p: Status { i: true, ..m.p }, ..m },
        Op::Cld => Machine { p: Status { d: false, ..m.p }, ..m },
        Op::Sed => Machine { p: Status { d: true, ..m.p }, ..m },
        Op::Clv => Machine { p: Status { v: false, ..m.p }, ..m },
        _ => m,
    };
    (m2, 2)
}

/// PHA, PHP, PLA, PLP. Pushes write at `$0100 + SP` and decrement SP; pulls
/// increment SP first. PHP pushes the flags with B and bit 5 forced high;
/// PLP adopts the pulled byte with B and bit 5 masked away.
pub open spec fn spec_stack_op(m: Machine, op: Op) -> (Machine, nat) {
    match op {
        Op::Pha => (
            Machine {
                mem: m.mem.update(stack_addr(m.sp) as int, m.a),
                sp: wrap8(m.sp + 255),
                ..m
            },
            3,
        ),
        Op::Php => (
            Machine {
                mem: m.mem.update(stack_addr(m.sp) as int, spec_pushed_bits(m.p)),
                sp: wrap8(m.sp + 255),
                ..m
            },
            3,
        ),
        Op::Pla => {
            let v = byte_at(m.mem, stack_addr(wrap8(m.sp + 1)));
            (Machine { sp: wrap8(m.sp + 1), a: v, p: with_zn(m.p, v), ..m }, 4)
        },
        Op::Plp => {
            let v = byte_at(m.mem, stack_addr(wrap8(m.sp + 1)));
            (Machine { sp: wrap8(m.sp + 1), p: spec_pulled_status(v), ..m }, 4)
        },
        _ => (m, 2),
    }
}

/// JMP, absolute or indirect: load the program counter with the resolved
/// address.
pub open spec fn spec_jmp(m: Machine, mode: Mode) -> (Machine, nat) {
    let r = spec_resolve(m.mem, m.pc, m.x, m.y, mode);
    (Machine { pc: r.addr, ..m }, (1 + r.cycles) as nat)
}

/// JSR: push the address of the operand's last byte (high byte first), then
/// jump to the operand word.
pub open spec fn spec_jsr(m: Machine) -> (Machine, nat) {
    let lo = byte_at(m.mem, m.pc);
    let hi = byte_at(m.mem, wrap16(m.pc + 1));
    let ret = wrap16(m.pc + 1);
    let mem2 = m.mem.update(stack_addr(m.sp) as int, (ret / 256) as u8).update(
        stack_addr(wrap8(m.sp + 255)) as int,
        (ret % 256) as u8,
    );
    (Machine { pc: word_le(lo, hi), sp: wrap8(m.sp + 254), mem: mem2, ..m }, 6)
}

/// RTS: pull low then high, and resume at the pulled word plus one.
pub open spec fn spec_rts(m: Machine) -> (Machine, nat) {
    let lo = byte_at(m.mem, stack_addr(wrap8(m.sp + 1)));
    let hi = byte_at(m.mem, stack_addr(wrap8(m.sp + 2)));
    (Machine { pc: wrap16(word_le(lo, hi) + 1), sp: wrap8(m.sp + 2), ..m }, 6)
}

/// Which flag value lets a conditional branch go.
pub open spec fn branch_taken(op: Op, p: Status) -> bool {
    match op {
        Op::Bcc => !p.c,
        Op::Bcs => p.c,
        Op::Beq => p.z,
        Op::Bne => !p.z,
        Op::Bmi => p.n,
        Op::Bpl => !p.n,
        Op::Bvc => !p.v,
        Op::Bvs => p.v,
        _ => false,
    }
}

/// The branch destination: the program counter after the offset byte plus
/// the offset taken as two's complement.
pub open spec fn branch_target(pc: u16, off: u8) -> u16 {
    if off >= 128 {
        wrap16(pc + off + 0xFF00)
    } else {
        wrap16(pc + off)
    }
}

/// A conditional branch: two cycles when not taken, one more when taken, and
/// another when the destination lies on a different page than the
/// instruction's end.
pub open spec fn spec_branch(m: Machine, op: Op) -> (Machine, nat) {
    let off = byte_at(m.mem, m.pc);
    let pc2 = wrap16(m.pc + 1);
    if !branch_taken(op, m.p) {
        (Machine { pc: pc2, ..m }, 2)
    } else {
        let t = branch_target(pc2, off);
        (
            Machine { pc: t, ..m },
            if same_page(pc2, t) {
                3nat
            } else {
                4nat
            },
        )
    }
}

/// BRK: push the program counter past the padding byte, push the flags with
/// B (and bit 5) high, set I, and jump through the vector at `$FFFE/$FFFF`.
pub open spec fn spec_brk(m: Machine) -> (Machine, nat) {
    let ret = wrap16(m.pc + 1);
    let p1 = Status { b: true, ..m.p };
    let mem2 = m.mem.update(stack_addr(m.sp) as int, (ret / 256) as u8).update(
        stack_addr(wrap8(m.sp + 255)) as int,
        (ret % 256) as u8,
    ).update(stack_addr(wrap8(m.sp + 254)) as int, spec_pushed_bits(p1));
    (
        Machine {
            pc: word_le(byte_at(m.mem, 0xFFFE), byte_at(m.mem, 0xFFFF)),
            sp: wrap8(m.sp + 253),
            p: Status { i: true, ..p1 },
            mem: mem2,
            ..m
        },
        7,
    )
}

/// RTI: pull the flags (B and bit 5 masked away), then the program counter,
/// low byte first; no increment afterwards.
pub open spec fn spec_rti(m: Machine) -> (Machine, nat) {
    let pv = byte_at(m.mem, stack_addr(wrap8(m.sp + 1)));
    let lo = byte_at(m.mem, stack_addr(wrap8(m.sp + 2)));
    let hi = byte_at(m.mem, stack_addr(wrap8(m.sp + 3)));
    (Machine { pc: word_le(lo, hi), sp: wrap8(m.sp + 3), p: spec_pulled_status(pv), ..m }, 6)
}

/// One decoded instruction, executed against the state just after the opcode
/// fetch: the next machine state and the instruction's total cycle cost,
/// opcode fetch included.
pub open spec fn spec_exec(m: Machine, op: Op, mode: Mode) -> (Machine, nat) {
    match op {
        Op::Lda | Op::Ldx | Op::Ldy => spec_load(m, op, mode),
        Op::Sta | Op::Stx | Op::Sty => spec_store(m, op, mode),
        Op::And | Op::Eor | Op::Ora => spec_logic(m, op, mode),
        Op::Bit => spec_bit(m, mode),
        Op::Adc => spec_adc(m, mode),
        Op::Sbc => spec_sbc(m, mode),
        Op::Cmp | Op::Cpx | Op::Cpy => spec_compare(m, op, mode),
        Op::Inc | Op::Dec => spec_rmw(m, op, mode),
        Op::Asl | Op::Lsr | Op::Rol | Op::Ror => if mode == Mode::Accumulator {
            spec_shift_acc(m, op)
        } else {
            spec_rmw(m, op, mode)
        },
        Op::Tax | Op::Tay | Op::Txa | Op::Tya | Op::Tsx | Op::Txs | Op::Inx | Op::Iny | Op::Dex
            | Op::Dey | Op::Clc | Op::Sec | Op::Cli | Op::Sei | Op::Cld | Op::Sed | Op::Clv
            | Op::Nop => spec_reg_op(m, op),
        Op::Pha | Op::Php | Op::Pla | Op::Plp => spec_stack_op(m, op),
        Op::Jmp => spec_jmp(m, mode),
        Op::Jsr => spec_jsr(m),
        Op::Rts => spec_rts(m),
        Op::Bcc | Op::Bcs | Op::Beq | Op::Bmi | Op::Bne | Op::Bpl | Op::Bvc | Op::Bvs => {
            spec_branch(m, op)
        },
        Op::Brk => spec_brk(m),
        Op::Rti => spec_rti(m),
    }
}

/// The machine just after the one-cycle opcode fetch: the program counter
/// has moved past the opcode byte.
pub open spec fn after_fetch(m: Machine) -> Machine {
    Machine { pc: wrap16(m.pc + 1), ..m }
}

/// One instruction from `m`: decode the byte under the program counter and
/// execute it, or `None` when the byte is not a documented opcode.
pub open spec fn spec_step(m: Machine) -> Option<(Machine, nat)> {
    match crate::isa::spec_decode(byte_at(m.mem, m.pc)) {
        Option::None => Option::None,
        Option::Some((op, mode)) => Option::Some(spec_exec(after_fetch(m), op, mode)),
    }
}

/// Every instruction costs at least one cycle, so a run under a finite
/// budget always terminates.
#[verifier::rlimit(50)]
pub proof fn lemma_exec_cost(m: Machine, op: Op, mode: Mode)
    ensures
        1 <= spec_exec(m, op, mode).1,
{
    let o = spec_operand(m.mem, m.pc, m.x, m.y, mode);
    assert(2 <= o.cost);
}

/// The cycle cost of any step is positive.
pub proof fn lemma_step_cost(m: Machine)
    ensures
        spec_step(m) matches Some(sr) ==> 1 <= sr.1,
{
    if let Some((op, mode)) = crate::isa::spec_decode(byte_at(m.mem, m.pc)) {
        lemma_exec_cost(after_fetch(m), op, mode);
    }
}

} // verus!
