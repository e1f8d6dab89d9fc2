//! The executable processor: a register file and an executor that fetches,
//! decodes and performs instructions while debiting a cycle budget.
//!
//! Every public operation is proved against the specification interpreter in
//! [`crate::model`]: one `step` performs exactly what [`spec_step`] says, and
//! `execute` performs exactly what [`spec_run`] says. An instruction either
//! completes whole — the budget covers its documented cost — or fails before
//! touching any register or memory byte.

use vstd::prelude::*;
use crate::isa::{decode, Mode, Op};
use crate::memory::Memory;
use crate::model::{
    after_fetch, byte_at, lemma_step_cost, rmw_carry, rmw_result, spec_exec, spec_step,
    stack_addr, word_le, wrap16, wrap8, Machine,
};
use crate::status::Status;

verus! {

/// The two fatal conditions of a run. The executor has no recoverable
/// errors: memory reads cannot fail, so only these stop it.
#[derive(Clone, Copy, PartialEq, Eq, Structural, Debug)]
pub enum EmuError {
    /// The fetched byte is not a documented opcode; carries the byte and the
    /// address it was fetched from.
    InvalidOpcode { byte: u8, pc: u16 },
    /// An instruction would have debited more cycles than remained in the
    /// budget. The machine is left exactly as it was before that
    /// instruction.
    CycleUnderflow,
}

/// Where a run ended: the final machine state, and the fatal error if the
/// budget did not come out exactly even.
pub ghost struct RunEnd {
    pub m: Machine,
    pub err: Option<EmuError>,
}

/// Runs the specification interpreter until the budget is exactly consumed
/// or a fatal condition stops it. A run ends cleanly only when the budget
/// matches the program's cycle cost to the cycle; an instruction that the
/// remainder cannot cover stops the run with the machine untouched.
pub open spec fn spec_run(m: Machine, budget: nat) -> RunEnd
    decreases budget,
    via spec_run_decreases
{
    if budget == 0 {
        RunEnd { m, err: None }
    } else {
        match spec_step(m) {
            None => RunEnd {
                m,
                err: Some(EmuError::InvalidOpcode { byte: byte_at(m.mem, m.pc), pc: m.pc }),
            },
            Some((m2, cost)) => {
                if cost > budget {
                    RunEnd { m, err: Some(EmuError::CycleUnderflow) }
                } else {
                    spec_run(m2, (budget - cost) as nat)
                }
            },
        }
    }
}

#[via_fn]
proof fn spec_run_decreases(m: Machine, budget: nat) {
    lemma_step_cost(m);
}

/// What one instruction's execution guarantees, relative to the machine
/// `m0` before the opcode fetch, the budget `c0`, and the specification
/// outcome `sr` of the decoded instruction: either the cost fits and the
/// machine moves to exactly the specified state, or nothing changes and the
/// underflow error comes back.
pub open spec fn exec_post(
    m0: Machine,
    c0: u32,
    m1: Machine,
    c1: u32,
    r: Result<(), EmuError>,
    sr: (Machine, nat),
) -> bool {
    if sr.1 <= c0 {
        &&& r == Result::<(), EmuError>::Ok(())
        &&& m1 == sr.0
        &&& c1 == c0 - sr.1
    } else {
        &&& r == Result::<(), EmuError>::Err(EmuError::CycleUnderflow)
        &&& m1 == m0
        &&& c1 == c0
    }
}

/// The register file of the 6502.
#[derive(Clone, Copy, PartialEq, Eq, Structural, Debug)]
pub struct CPU {
    /// Program counter.
    pub pc: u16,
    /// Stack pointer; the stack lives at `$0100 + SP` and grows downward.
    pub sp: u8,
    /// Accumulator.
    pub a: u8,
    /// Index register X.
    pub x: u8,
    /// Index register Y.
    pub y: u8,
    /// Processor status flags.
    pub p: Status,
}

impl Default for CPU {
    /// All registers zero and every flag clear.
    fn default() -> (r: CPU)
        ensures
            r == (CPU {
                pc: 0,
                sp: 0,
                a: 0,
                x: 0,
                y: 0,
                p: Status::spec_default(),
            }),
    {
        CPU {
            pc: 0,
            sp: 0,
            a: 0,
            x: 0,
            y: 0,
            p: Status { c: false, z: false, i: false, d: false, b: false, v: false, n: false },
        }
    }
}

/// 16-bit addition with the mod-65536 wrap of the address space.
fn wadd16(a: u16, b: u16) -> (r: u16)
    ensures
        r == wrap16(a + b),
{
    (((a as u32) + (b as u32)) % 65536) as u16
}

/// 8-bit addition with the mod-256 wrap of the registers.
fn wadd8(a: u8, b: u8) -> (r: u8)
    ensures
        r == wrap8(a + b),
{
    (((a as u16) + (b as u16)) % 256) as u8
}

/// Assembles a little-endian word.
fn make_word(lo: u8, hi: u8) -> (r: u16)
    ensures
        r == word_le(lo, hi),
{
    lo as u16 + 256 * (hi as u16)
}

/// The stack byte selected by a stack pointer value.
fn stack_index(sp: u8) -> (r: u16)
    ensures
        r == stack_addr(sp),
{
    0x0100 + sp as u16
}

/// Resolves an addressing mode without touching any state: the effective
/// address, the program counter after the operand bytes, the resolution
/// cycles, and the page-cross flag; agrees with [`spec_resolve`] on every
/// mode.
///
/// [`spec_resolve`]: crate::model::spec_resolve
fn resolve(mem: &Memory, pc: u16, x: u8, y: u8, mode: Mode) -> (r: (u16, u16, u32, bool))
    requires
        mem.inv(),
    ensures
        ({
            let s = crate::model::spec_resolve(mem@, pc, x, y, mode);
            &&& r.0 == s.addr
            &&& r.1 == s.pc
            &&& r.2 as nat == s.cycles
            &&& r.3 == s.crossed
            &&& r.2 <= 4
        }),
{
    match mode {
        Mode::ZeroPage => {
            let base = mem.read(pc);
            (base as u16, wadd16(pc, 1), 1, false)
        },
        Mode::ZeroPageX => {
            let base = mem.read(pc);
            (wadd8(base, x) as u16, wadd16(pc, 1), 2, false)
        },
        Mode::ZeroPageY => {
            let base = mem.read(pc);
            (wadd8(base, y) as u16, wadd16(pc, 1), 2, false)
        },
        Mode::Absolute => {
            let lo = mem.read(pc);
            let hi = mem.read(wadd16(pc, 1));
            (make_word(lo, hi), wadd16(pc, 2), 2, false)
        },
        Mode::AbsoluteX => {
            let lo = mem.read(pc);
            let hi = mem.read(wadd16(pc, 1));
            let base = make_word(lo, hi);
            let addr = wadd16(base, x as u16);
            (addr, wadd16(pc, 2), 2, base / 256 != addr / 256)
        },
        Mode::AbsoluteY => {
            let lo = mem.read(pc);
            let hi = mem.read(wadd16(pc, 1));
            let base = make_word(lo, hi);
            let addr = wadd16(base, y as u16);
            (addr, wadd16(pc, 2), 2, base / 256 != addr / 256)
        },
        Mode::Indirect => {
            let lo = mem.read(pc);
            let hi = mem.read(wadd16(pc, 1));
            let ptr = make_word(lo, hi);
            // The page-wrap quirk: a pointer ending in $FF takes its high
            // byte from the start of the same page.
            let ptr_hi = if lo == 0xFF {
                make_word(0x00, hi)
            } else {
                wadd16(ptr, 1)
            };
            (make_word(mem.read(ptr), mem.read(ptr_hi)), wadd16(pc, 2), 4, false)
        },
        Mode::IndirectX => {
            let zp = wadd8(mem.read(pc), x);
            let addr = make_word(mem.read(zp as u16), mem.read(wadd8(zp, 1) as u16));
            (addr, wadd16(pc, 1), 4, false)
        },
        Mode::IndirectY => {
            let zp = mem.read(pc);
            let base = make_word(mem.read(zp as u16), mem.read(wadd8(zp, 1) as u16));
            let addr = wadd16(base, y as u16);
            (addr, wadd16(pc, 1), 3, base / 256 != addr / 256)
        },
        _ => (0, pc, 0, false),
    }
}

/// Fetches a read-class operand: its value, the program counter after the
/// operand bytes, and the instruction's full cycle cost; agrees with
/// [`spec_operand`] on every mode.
///
/// [`spec_operand`]: crate::model::spec_operand
fn read_operand(mem: &Memory, pc: u16, x: u8, y: u8, mode: Mode) -> (r: (u8, u16, u32))
    requires
        mem.inv(),
    ensures
        ({
            let o = crate::model::spec_operand(mem@, pc, x, y, mode);
            &&& r.0 == o.value
            &&& r.1 == o.pc
            &&& r.2 as nat == o.cost
            &&& r.2 <= 7
        }),
{
    if mode == Mode::Immediate {
        let v = mem.read(pc);
        (v, wadd16(pc, 1), 2)
    } else {
        let (addr, pc2, cyc, crossed) = resolve(mem, pc, x, y, mode);
        let pen: u32 = if crossed {
            1
        } else {
            0
        };
        (mem.read(addr), pc2, 2 + cyc + pen)
    }
}

/// The transformed byte of a read-modify-write or accumulator shift; agrees
/// with [`rmw_result`].
fn rmw_byte(op: Op, v: u8, cin: bool) -> (r: u8)
    ensures
        r == rmw_result(op, v, cin),
{
    match op {
        Op::Inc => (((v as u16) + 1) % 256) as u8,
        Op::Dec => (((v as u16) + 255) % 256) as u8,
        Op::Asl => (((v as u16) * 2) % 256) as u8,
        Op::Lsr => v / 2,
        Op::Rol => (((v as u16) * 2 + (if cin {
            1
        } else {
            0
        })) % 256) as u8,
        Op::Ror => v / 2 + (if cin {
            128
        } else {
            0
        }),
        _ => v,
    }
}

/// The carry flag after a read-modify-write or accumulator shift; agrees
/// with [`rmw_carry`].
fn rmw_c(op: Op, v: u8, c_old: bool) -> (r: bool)
    ensures
        r == rmw_carry(op, v, c_old),
{
    match op {
        Op::Asl | Op::Rol => v & 0x80 != 0,
        Op::Lsr | Op::Ror => v & 0x01 != 0,
        _ => c_old,
    }
}

impl CPU {
    /// The machine state this register file forms together with a memory.
    pub open spec fn machine(self, mem: Seq<u8>) -> Machine {
        Machine { pc: self.pc, sp: self.sp, a: self.a, x: self.x, y: self.y, p: self.p, mem }
    }

    /// Seeds the program counter from the reset vector at `$FFFC/$FFFD`
    /// (little-endian) and the stack pointer with `$FF`. Registers and flags
    /// are left alone.
    pub fn reset(&mut self, memory: &Memory)
        requires
            memory.inv(),
        ensures
            final(self).pc == word_le(byte_at(memory@, 0xFFFC), byte_at(memory@, 0xFFFD)),
            final(self).sp == 0xFF,
            final(self).a == old(self).a,
            final(self).x == old(self).x,
            final(self).y == old(self).y,
            final(self).p == old(self).p,
    {
        let lo = memory.read(0xFFFC);
        let hi = memory.read(0xFFFD);
        self.pc = make_word(lo, hi);
        self.sp = 0xFF;
    }

    /// LDA, LDX, LDY.
    fn do_load(&mut self, cycles: &mut u32, mem: &mut Memory, op: Op, mode: Mode) -> (r: Result<
        (),
        EmuError,
    >)
        requires
            old(mem).inv(),
            op == Op::Lda || op == Op::Ldx || op == Op::Ldy,
        ensures
            final(mem).inv(),
            exec_post(
                old(self).machine(old(mem)@),
                *old(cycles),
                final(self).machine(final(mem)@),
                *final(cycles),
                r,
                spec_exec(after_fetch(old(self).machine(old(mem)@)), op, mode),
            ),
    {
        let pc1 = wadd16(self.pc, 1);
        let (value, pc2, cost) = read_operand(mem, pc1, self.x, self.y, mode);
        if cost > *cycles {
            return Err(EmuError::CycleUnderflow);
        }
        *cycles = *cycles - cost;
        match op {
            Op::Ldx => {
                self.x = value;
            },
            Op::Ldy => {
                self.y = value;
            },
            _ => {
                self.a = value;
            },
        }
        self.p = Status { z: value == 0, n: value & 0x80 != 0, ..self.p };
        self.pc = pc2;
        Ok(())
    }

    /// STA, STX, STY.
    fn do_store(&mut self, cycles: &mut u32, mem: &mut Memory, op: Op, mode: Mode) -> (r: Result<
        (),
        EmuError,
    >)
        requires
            old(mem).inv(),
            op == Op::Sta || op == Op::Stx || op == Op::Sty,
        ensures
            final(mem).inv(),
            exec_post(
                old(self).machine(old(mem)@),
                *old(cycles),
                final(self).machine(final(mem)@),
                *final(cycles),
                r,
                spec_exec(after_fetch(old(self).machine(old(mem)@)), op, mode),
            ),
    {
        let pc1 = wadd16(self.pc, 1);
        let (addr, pc2, cyc, _crossed) = resolve(mem, pc1, self.x, self.y, mode);
        let pen: u32 = if mode == Mode::AbsoluteX || mode == Mode::AbsoluteY || mode
            == Mode::IndirectY {
            1
        } else {
            0
        };
        let cost = 2 + cyc + pen;
        if cost > *cycles {
            return Err(EmuError::CycleUnderflow);
        }
        *cycles = *cycles - cost;
        let value = match op {
            Op::Stx => self.x,
            Op::Sty => self.y,
            _ => self.a,
        };
        mem.write(addr, value);
        self.pc = pc2;
        Ok(())
    }

    /// AND, EOR, ORA.
    fn do_logic(&mut self, cycles: &mut u32, mem: &mut Memory, op: Op, mode: Mode) -> (r: Result<
        (),
        EmuError,
    >)
        requires
            old(mem).inv(),
            op == Op::And || op == Op::Eor || op == Op::Ora,
        ensures
            final(mem).inv(),
            exec_post(
                old(self).machine(old(mem)@),
                *old(cycles),
                final(self).machine(final(mem)@),
                *final(cycles),
                r,
                spec_exec(after_fetch(old(self).machine(old(mem)@)), op, mode),
            ),
    {
        let pc1 = wadd16(self.pc, 1);
        let (value, pc2, cost) = read_operand(mem, pc1, self.x, self.y, mode);
        if cost > *cycles {
            return Err(EmuError::CycleUnderflow);
        }
        *cycles = *cycles - cost;
        let a2 = match op {
            Op::And => self.a & value,
            Op::Eor => self.a ^ value,
            _ => self.a | value,
        };
        self.a = a2;
        self.p = Status { z: a2 == 0, n: a2 & 0x80 != 0, ..self.p };
        self.pc = pc2;
        Ok(())
    }

    /// BIT.
    fn do_bit(&mut self, cycles: &mut u32, mem: &mut Memory, mode: Mode) -> (r: Result<
        (),
        EmuError,
    >)
        requires
            old(mem).inv(),
        ensures
            final(mem).inv(),
            exec_post(
                old(self).machine(old(mem)@),
                *old(cycles),
                final(self).machine(final(mem)@),
                *final(cycles),
                r,
                spec_exec(after_fetch(old(self).machine(old(mem)@)), Op::Bit, mode),
            ),
    {
        let pc1 = wadd16(self.pc, 1);
        let (value, pc2, cost) = read_operand(mem, pc1, self.x, self.y, mode);
        if cost > *cycles {
            return Err(EmuError::CycleUnderflow);
        }
        *cycles = *cycles - cost;
        self.p = Status {
            z: (self.a & value) == 0,
            n: value & 0x80 != 0,
            v: value & 0x40 != 0,
            ..self.p
        };
        self.pc = pc2;
        Ok(())
    }

    /// ADC and SBC; SBC adds the one's complement of the operand.
    fn do_adc_sbc(&mut self, cycles: &mut u32, mem: &mut Memory, op: Op, mode: Mode) -> (r: Result<
        (),
        EmuError,
    >)
        requires
            old(mem).inv(),
            op == Op::Adc || op == Op::Sbc,
        ensures
            final(mem).inv(),
            exec_post(
                old(self).machine(old(mem)@),
                *old(cycles),
                final(self).machine(final(mem)@),
                *final(cycles),
                r,
                spec_exec(after_fetch(old(self).machine(old(mem)@)), op, mode),
            ),
    {
        let pc1 = wadd16(self.pc, 1);
        let (value, pc2, cost) = read_operand(mem, pc1, self.x, self.y, mode);
        if cost > *cycles {
            return Err(EmuError::CycleUnderflow);
        }
        *cycles = *cycles - cost;
        let operand = if op == Op::Sbc {
            !value
        } else {
            value
        };
        let cin: u16 = if self.p.c {
            1
        } else {
            0
        };
        let sum: u16 = self.a as u16 + operand as u16 + cin;
        let res = (sum % 256) as u8;
        self.p = Status {
            c: sum >= 256,
            v: ((self.a ^ res) & (operand ^ res) & 0x80) != 0,
            z: res == 0,
            n: res & 0x80 != 0,
            ..self.p
        };
        self.a = res;
        self.pc = pc2;
        Ok(())
    }

    /// CMP, CPX, CPY.
    fn do_compare(&mut self, cycles: &mut u32, mem: &mut Memory, op: Op, mode: Mode) -> (r: Result<
        (),
        EmuError,
    >)
        requires
            old(mem).inv(),
            op == Op::Cmp || op == Op::Cpx || op == Op::Cpy,
        ensures
            final(mem).inv(),
            exec_post(
                old(self).machine(old(mem)@),
                *old(cycles),
                final(self).machine(final(mem)@),
                *final(cycles),
                r,
                spec_exec(after_fetch(old(self).machine(old(mem)@)), op, mode),
            ),
    {
        let pc1 = wadd16(self.pc, 1);
        let (value, pc2, cost) = read_operand(mem, pc1, self.x, self.y, mode);
        if cost > *cycles {
            return Err(EmuError::CycleUnderflow);
        }
        *cycles = *cycles - cost;
        let reg = match op {
            Op::Cpx => self.x,
            Op::Cpy => self.y,
            _ => self.a,
        };
        let diff = ((reg as u16 + 256 - value as u16) % 256) as u8;
        self.p = Status { c: reg >= value, z: reg == value, n: diff & 0x80 != 0, ..self.p };
        self.pc = pc2;
        Ok(())
    }

    /// INC, DEC and the memory forms of ASL, LSR, ROL, ROR.
    #[verifier::rlimit(50)]
    fn do_rmw(&mut self, cycles: &mut u32, mem: &mut Memory, op: Op, mode: Mode) -> (r: Result<
        (),
        EmuError,
    >)
        requires
            old(mem).inv(),
            op == Op::Inc || op == Op::Dec || op == Op::Asl || op == Op::Lsr || op == Op::Rol || op
                == Op::Ror,
            mode != Mode::Accumulator,
        ensures
            final(mem).inv(),
            exec_post(
                old(self).machine(old(mem)@),
                *old(cycles),
                final(self).machine(final(mem)@),
                *final(cycles),
                r,
                spec_exec(after_fetch(old(self).machine(old(mem)@)), op, mode),
            ),
    {
        let pc1 = wadd16(self.pc, 1);
        let (addr, pc2, cyc, _crossed) = resolve(mem, pc1, self.x, self.y, mode);
        let pen: u32 = if mode == Mode::AbsoluteX {
            1
        } else {
            0
        };
        let cost = 4 + cyc + pen;
        if cost > *cycles {
            return Err(EmuError::CycleUnderflow);
        }
        *cycles = *cycles - cost;
        let v = mem.read(addr);
        let nv = rmw_byte(op, v, self.p.c);
        mem.write(addr, nv);
        self.p = Status { c: rmw_c(op, v, self.p.c), z: nv == 0, n: nv & 0x80 != 0, ..self.p };
        self.pc = pc2;
        Ok(())
    }

    /// The accumulator forms of ASL, LSR, ROL, ROR.
    fn do_shift_acc(&mut self, cycles: &mut u32, mem: &mut Memory, op: Op) -> (r: Result<
        (),
        EmuError,
    >)
        requires
            old(mem).inv(),
            op == Op::Asl || op == Op::Lsr || op == Op::Rol || op == Op::Ror,
        ensures
            final(mem).inv(),
            exec_post(
                old(self).machine(old(mem)@),
                *old(cycles),
                final(self).machine(final(mem)@),
                *final(cycles),
                r,
                spec_exec(after_fetch(old(self).machine(old(mem)@)), op, Mode::Accumulator),
            ),
    {
        if 2 > *cycles {
            return Err(EmuError::CycleUnderflow);
        }
        *cycles = *cycles - 2;
        let pc1 = wadd16(self.pc, 1);
        let nv = rmw_byte(op, self.a, self.p.c);
        self.p = Status { c: rmw_c(op, self.a, self.p.c), z: nv == 0, n: nv & 0x80 != 0, ..self.p };
        self.a = nv;
        self.pc = pc1;
        Ok(())
    }

    /// The two-cycle register instructions: transfers, register increments
    /// and decrements, flag instructions, NOP.
    fn do_reg(&mut self, cycles: &mut u32, mem: &mut Memory, op: Op) -> (r: Result<(), EmuError>)
        requires
            old(mem).inv(),
            op == Op::Tax || op == Op::Tay || op == Op::Txa || op == Op::Tya || op == Op::Tsx || op
                == Op::Txs || op == Op::Inx || op == Op::Iny || op == Op::Dex || op == Op::Dey || op
                == Op::Clc || op == Op::Sec || op == Op::Cli || op == Op::Sei || op == Op::Cld || op
                == Op::Sed || op == Op::Clv || op == Op::Nop,
        ensures
            final(mem).inv(),
            exec_post(
                old(self).machine(old(mem)@),
                *old(cycles),
                final(self).machine(final(mem)@),
                *final(cycles),
                r,
                spec_exec(after_fetch(old(self).machine(old(mem)@)), op, Mode::Implied),
            ),
    {
        if 2 > *cycles {
            return Err(EmuError::CycleUnderflow);
        }
        *cycles = *cycles - 2;
        self.pc = wadd16(self.pc, 1);
        match op {
            Op::Tax => {
                self.x = self.a;
                self.p = Status { z: self.x == 0, n: self.x & 0x80 != 0, ..self.p };
            },
            Op::Tay => {
                self.y = self.a;
                self.p = Status { z: self.y == 0, n: self.y & 0x80 != 0, ..self.p };
            },
            Op::Txa => {
                self.a = self.x;
                self.p = Status { z: self.a == 0, n: self.a & 0x80 != 0, ..self.p };
            },
            Op::Tya => {
                self.a = self.y;
                self.p = Status { z: self.a == 0, n: self.a & 0x80 != 0, ..self.p };
            },
            Op::Tsx => {
                self.x = self.sp;
                self.p = Status { z: self.x == 0, n: self.x & 0x80 != 0, ..self.p };
            },
            Op::Txs => {
                self.sp = self.x;
            },
            Op::Inx => {
                self.x = wadd8(self.x, 1);
                self.p = Status { z: self.x == 0, n: self.x & 0x80 != 0, ..self.p };
            },
            Op::Iny => {
                self.y = wadd8(self.y, 1);
                self.p = Status { z: self.y == 0, n: self.y & 0x80 != 0, ..self.p };
            },
            Op::Dex => {
                self.x = wadd8(self.x, 255);
                self.p = Status { z: self.x == 0, n: self.x & 0x80 != 0, ..self.p };
            },
            Op::Dey => {
                self.y = wadd8(self.y, 255);
                self.p = Status { z: self.y == 0, n: self.y & 0x80 != 0, ..self.p };
            },
            Op::Clc => {
                self.p = Status { c: false, ..self.p };
            },
            Op::Sec => {
                self.p = Status { c: true, ..self.p };
            },
            Op::Cli => {
                self.p = Status { i: false, ..self.p };
            },
            Op::Sei => {
                self.p = Status { i: true, ..self.p };
            },
            Op::Cld => {
                self.p = Status { d: false, ..self.p };
            },
            Op::Sed => {
                self.p = Status { d: true, ..self.p };
            },
            Op::Clv => {
                self.p = Status { v: false, ..self.p };
            },
            _ => {},
        }
        Ok(())
    }

    /// PHA, PHP, PLA, PLP.
    fn do_stack(&mut self, cycles: &mut u32, mem: &mut Memory, op: Op) -> (r: Result<(), EmuError>)
        requires
            old(mem).inv(),
            op == Op::Pha || op == Op::Php || op == Op::Pla || op == Op::Plp,
        ensures
            final(mem).inv(),
            exec_post(
                old(self).machine(old(mem)@),
                *old(cycles),
                final(self).machine(final(mem)@),
                *final(cycles),
                r,
                spec_exec(after_fetch(old(self).machine(old(mem)@)), op, Mode::Implied),
            ),
    {
        match op {
            Op::Pla => {
                if 4 > *cycles {
                    return Err(EmuError::CycleUnderflow);
                }
                *cycles = *cycles - 4;
                self.sp = wadd8(self.sp, 1);
                let v = mem.read(stack_index(self.sp));
                self.a = v;
                self.p = Status { z: v == 0, n: v & 0x80 != 0, ..self.p };
                self.pc = wadd16(self.pc, 1);
            },
            Op::Plp => {
                if 4 > *cycles {
                    return Err(EmuError::CycleUnderflow);
                }
                *cycles = *cycles - 4;
                self.sp = wadd8(self.sp, 1);
                let v = mem.read(stack_index(self.sp));
                self.p = Status::from_pulled(v);
                self.pc = wadd16(self.pc, 1);
            },
            Op::Php => {
                if 3 > *cycles {
                    return Err(EmuError::CycleUnderflow);
                }
                *cycles = *cycles - 3;
                let bits = self.p.pushed_bits();
                mem.write(stack_index(self.sp), bits);
                self.sp = wadd8(self.sp, 255);
                self.pc = wadd16(self.pc, 1);
            },
            _ => {
                if 3 > *cycles {
                    return Err(EmuError::CycleUnderflow);
                }
                *cycles = *cycles - 3;
                mem.write(stack_index(self.sp), self.a);
                self.sp = wadd8(self.sp, 255);
                self.pc = wadd16(self.pc, 1);
            },
        }
        Ok(())
    }

    /// JMP, absolute or indirect.
    fn do_jmp(&mut self, cycles: &mut u32, mem: &mut Memory, mode: Mode) -> (r: Result<
        (),
        EmuError,
    >)
        requires
            old(mem).inv(),
        ensures
            final(mem).inv(),
            exec_post(
                old(self).machine(old(mem)@),
                *old(cycles),
                final(self).machine(final(mem)@),
                *final(cycles),
                r,
                spec_exec(after_fetch(old(self).machine(old(mem)@)), Op::Jmp, mode),
            ),
    {
        let pc1 = wadd16(self.pc, 1);
        let (addr, _pc2, cyc, _crossed) = resolve(mem, pc1, self.x, self.y, mode);
        let cost = 1 + cyc;
        if cost > *cycles {
            return Err(EmuError::CycleUnderflow);
        }
        *cycles = *cycles - cost;
        self.pc = addr;
        Ok(())
    }

    /// JSR: push the address of the operand's last byte, high byte first.
    fn do_jsr(&mut self, cycles: &mut u32, mem: &mut Memory) -> (r: Result<(), EmuError>)
        requires
            old(mem).inv(),
        ensures
            final(mem).inv(),
            exec_post(
                old(self).machine(old(mem)@),
                *old(cycles),
                final(self).machine(final(mem)@),
                *final(cycles),
                r,
                spec_exec(after_fetch(old(self).machine(old(mem)@)), Op::Jsr, Mode::Absolute),
            ),
    {
        let pc1 = wadd16(self.pc, 1);
        let lo = mem.read(pc1);
        let hi = mem.read(wadd16(pc1, 1));
        let ret = wadd16(pc1, 1);
        if 6 > *cycles {
            return Err(EmuError::CycleUnderflow);
        }
        *cycles = *cycles - 6;
        mem.write(stack_index(self.sp), (ret / 256) as u8);
        mem.write(stack_index(wadd8(self.sp, 255)), (ret % 256) as u8);
        self.sp = wadd8(self.sp, 254);
        self.pc = make_word(lo, hi);
        Ok(())
    }

    /// RTS: pull low then high and resume one byte past the pulled word.
    fn do_rts(&mut self, cycles: &mut u32, mem: &mut Memory) -> (r: Result<(), EmuError>)
        requires
            old(mem).inv(),
        ensures
            final(mem).inv(),
            exec_post(
                old(self).machine(old(mem)@),
                *old(cycles),
                final(self).machine(final(mem)@),
                *final(cycles),
                r,
                spec_exec(after_fetch(old(self).machine(old(mem)@)), Op::Rts, Mode::Implied),
            ),
    {
        if 6 > *cycles {
            return Err(EmuError::CycleUnderflow);
        }
        *cycles = *cycles - 6;
        let lo = mem.read(stack_index(wadd8(self.sp, 1)));
        let hi = mem.read(stack_index(wadd8(self.sp, 2)));
        self.sp = wadd8(self.sp, 2);
        self.pc = wadd16(make_word(lo, hi), 1);
        Ok(())
    }

    /// The eight conditional branches.
    fn do_branch(&mut self, cycles: &mut u32, mem: &mut Memory, op: Op) -> (r: Result<
        (),
        EmuError,
    >)
        requires
            old(mem).inv(),
            op == Op::Bcc || op == Op::Bcs || op == Op::Beq || op == Op::Bmi || op == Op::Bne || op
                == Op::Bpl || op == Op::Bvc || op == Op::Bvs,
        ensures
            final(mem).inv(),
            exec_post(
                old(self).machine(old(mem)@),
                *old(cycles),
                final(self).machine(final(mem)@),
                *final(cycles),
                r,
                spec_exec(after_fetch(old(self).machine(old(mem)@)), op, Mode::Relative),
            ),
    {
        let pc1 = wadd16(self.pc, 1);
        let off = mem.read(pc1);
        let pc2 = wadd16(pc1, 1);
        let taken = match op {
            Op::Bcc => !self.p.c,
            Op::Bcs => self.p.c,
            Op::Beq => self.p.z,
            Op::Bne => !self.p.z,
            Op::Bmi => self.p.n,
            Op::Bpl => !self.p.n,
            Op::Bvc => !self.p.v,
            _ => self.p.v,
        };
        if !taken {
            if 2 > *cycles {
                return Err(EmuError::CycleUnderflow);
            }
            *cycles = *cycles - 2;
            self.pc = pc2;
        } else {
            let target = if off >= 128 {
                (((pc2 as u32) + (off as u32) + 0xFF00) % 65536) as u16
            } else {
                wadd16(pc2, off as u16)
            };
            let cost: u32 = if pc2 / 256 == target / 256 {
                3
            } else {
                4
            };
            if cost > *cycles {
                return Err(EmuError::CycleUnderflow);
            }
            *cycles = *cycles - cost;
            self.pc = target;
        }
        Ok(())
    }

    /// BRK: push the program counter past the padding byte and the flags
    /// with B high, set I, jump through `$FFFE/$FFFF`.
    fn do_brk(&mut self, cycles: &mut u32, mem: &mut Memory) -> (r: Result<(), EmuError>)
        requires
            old(mem).inv(),
        ensures
            final(mem).inv(),
            exec_post(
                old(self).machine(old(mem)@),
                *old(cycles),
                final(self).machine(final(mem)@),
                *final(cycles),
                r,
                spec_exec(after_fetch(old(self).machine(old(mem)@)), Op::Brk, Mode::Implied),
            ),
    {
        let pc1 = wadd16(self.pc, 1);
        let ret = wadd16(pc1, 1);
        let lo = mem.read(0xFFFE);
        let hi = mem.read(0xFFFF);
        if 7 > *cycles {
            return Err(EmuError::CycleUnderflow);
        }
        *cycles = *cycles - 7;
        self.p = Status { b: true, ..self.p };
        let bits = self.p.pushed_bits();
        mem.write(stack_index(self.sp), (ret / 256) as u8);
        mem.write(stack_index(wadd8(self.sp, 255)), (ret % 256) as u8);
        mem.write(stack_index(wadd8(self.sp, 254)), bits);
        self.sp = wadd8(self.sp, 253);
        self.p = Status { i: true, ..self.p };
        self.pc = make_word(lo, hi);
        Ok(())
    }

    /// RTI: pull the flags, then the program counter, without the RTS
    /// increment.
    fn do_rti(&mut self, cycles: &mut u32, mem: &mut Memory) -> (r: Result<(), EmuError>)
        requires
            old(mem).inv(),
        ensures
            final(mem).inv(),
            exec_post(
                old(self).machine(old(mem)@),
                *old(cycles),
                final(self).machine(final(mem)@),
                *final(cycles),
                r,
                spec_exec(after_fetch(old(self).machine(old(mem)@)), Op::Rti, Mode::Implied),
            ),
    {
        if 6 > *cycles {
            return Err(EmuError::CycleUnderflow);
        }
        *cycles = *cycles - 6;
        let pv = mem.read(stack_index(wadd8(self.sp, 1)));
        let lo = mem.read(stack_index(wadd8(self.sp, 2)));
        let hi = mem.read(stack_index(wadd8(self.sp, 3)));
        self.sp = wadd8(self.sp, 3);
        self.p = Status::from_pulled(pv);
        self.pc = make_word(lo, hi);
        Ok(())
    }

    /// Fetches, decodes and performs one instruction, debiting its full
    /// cycle cost from `cycles`. The three outcomes are exactly those of
    /// [`spec_step`]: an undecodable byte or an unaffordable instruction
    /// leaves every register, flag, memory byte and the budget untouched.
    pub fn step(&mut self, cycles: &mut u32, mem: &mut Memory) -> (r: Result<(), EmuError>)
        requires
            old(mem).inv(),
        ensures
            final(mem).inv(),
            ({
                let m0 = old(self).machine(old(mem)@);
                let m1 = final(self).machine(final(mem)@);
                match spec_step(m0) {
                    None => {
                        &&& r == Result::<(), EmuError>::Err(
                            EmuError::InvalidOpcode { byte: byte_at(m0.mem, m0.pc), pc: m0.pc },
                        )
                        &&& m1 == m0
                        &&& *final(cycles) == *old(cycles)
                    },
                    Some(sr) => exec_post(m0, *old(cycles), m1, *final(cycles), r, sr),
                }
            }),
    {
        let b = mem.read(self.pc);
        match decode(b) {
            None => Err(EmuError::InvalidOpcode { byte: b, pc: self.pc }),
            Some((op, mode)) => match op {
                Op::Lda | Op::Ldx | Op::Ldy => self.do_load(cycles, mem, op, mode),
                Op::Sta | Op::Stx | Op::Sty => self.do_store(cycles, mem, op, mode),
                Op::And | Op::Eor | Op::Ora => self.do_logic(cycles, mem, op, mode),
                Op::Bit => self.do_bit(cycles, mem, mode),
                Op::Adc | Op::Sbc => self.do_adc_sbc(cycles, mem, op, mode),
                Op::Cmp | Op::Cpx | Op::Cpy => self.do_compare(cycles, mem, op, mode),
                Op::Inc | Op::Dec => self.do_rmw(cycles, mem, op, mode),
                Op::Asl | Op::Lsr | Op::Rol | Op::Ror => {
                    if mode == Mode::Accumulator {
                        self.do_shift_acc(cycles, mem, op)
                    } else {
                        self.do_rmw(cycles, mem, op, mode)
                    }
                },
                Op::Tax | Op::Tay | Op::Txa | Op::Tya | Op::Tsx | Op::Txs | Op::Inx | Op::Iny
                    | Op::Dex | Op::Dey | Op::Clc | Op::Sec | Op::Cli | Op::Sei | Op::Cld
                    | Op::Sed | Op::Clv | Op::Nop => self.do_reg(cycles, mem, op),
                Op::Pha | Op::Php | Op::Pla | Op::Plp => self.do_stack(cycles, mem, op),
                Op::Jmp => self.do_jmp(cycles, mem, mode),
                Op::Jsr => self.do_jsr(cycles, mem),
                Op::Rts => self.do_rts(cycles, mem),
                Op::Bcc | Op::Bcs | Op::Beq | Op::Bmi | Op::Bne | Op::Bpl | Op::Bvc | Op::Bvs => {
                    self.do_branch(cycles, mem, op)
                },
                Op::Brk => self.do_brk(cycles, mem),
                Op::Rti => self.do_rti(cycles, mem),
            },
        }
    }

    /// Runs instructions until the budget is exhausted, exactly as
    /// [`spec_run`] prescribes. A clean `Ok` means the program consumed the
    /// budget to the cycle; a budget that ends inside an instruction stops
    /// the run with `CycleUnderflow` and that instruction not performed; an
    /// undecodable byte stops it with `InvalidOpcode`.
    pub fn execute(&mut self, cycles: u32, memory: &mut Memory) -> (r: Result<(), EmuError>)
        requires
            old(memory).inv(),
        ensures
            final(memory).inv(),
            ({
                let end = spec_run(old(self).machine(old(memory)@), cycles as nat);
                &&& final(self).machine(final(memory)@) == end.m
                &&& r == (match end.err {
                    None => Result::<(), EmuError>::Ok(()),
                    Some(e) => Result::<(), EmuError>::Err(e),
                })
            }),
    {
        let ghost m_start = self.machine(memory@);
        let mut remaining = cycles;
        while remaining > 0
            invariant
                memory.inv(),
                m_start == old(self).machine(old(memory)@),
                spec_run(self.machine(memory@), remaining as nat) == spec_run(
                    m_start,
                    cycles as nat,
                ),
            decreases remaining,
        {
            proof {
                lemma_step_cost(self.machine(memory@));
            }
            let ghost m_pre = self.machine(memory@);
            let ghost c_pre = remaining as nat;
            let res = self.step(&mut remaining, memory);
            if let Err(e) = res {
                proof {
                    assert(spec_run(m_pre, c_pre) == RunEnd { m: m_pre, err: Some(e) });
                }
                return Err(e);
            }
        }
        Ok(())
    }
}

} // verus!
