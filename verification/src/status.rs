//! The processor status register: the C/Z/I/D/B/V/N flags.
//!
//! The flags are held as individual booleans; the packed 8-bit form of the
//! register (`N V 1 B D I Z C`, bit 5 unused) appears only when the register
//! is pushed to or pulled from the stack.

use vstd::prelude::*;

verus! {

/// The seven status flags of the 6502. Bit 5 of the packed register has no
/// semantic meaning and is not stored.
#[derive(Clone, Copy, PartialEq, Eq, Structural, Debug)]
pub struct Status {
    /// Carry (bit 0).
    pub c: bool,
    /// Zero (bit 1).
    pub z: bool,
    /// Interrupt disable (bit 2).
    pub i: bool,
    /// Decimal mode (bit 3); observable only, arithmetic stays binary.
    pub d: bool,
    /// Break (bit 4).
    pub b: bool,
    /// Signed overflow (bit 6).
    pub v: bool,
    /// Negative (bit 7).
    pub n: bool,
}

/// The byte written to the stack by PHP and BRK: the flags packed into their
/// bit positions, with the break flag (bit 4) and the unused bit 5 forced
/// high, as the NMOS convention demands.
pub open spec fn spec_pushed_bits(s: Status) -> u8 {
    ((if s.c { 1int } else { 0 }) + (if s.z { 2int } else { 0 }) + (if s.i { 4int } else { 0 })
        + (if s.d { 8int } else { 0 }) + 48 + (if s.v { 64int } else { 0 }) + (if s.n {
        128int
    } else {
        0
    })) as u8
}

/// The flags adopted from a byte pulled off the stack by PLP and RTI: each
/// flag from its bit position, with the break flag and bit 5 masked away.
pub open spec fn spec_pulled_status(value: u8) -> Status {
    Status {
        c: value & 0x01 != 0,
        z: value & 0x02 != 0,
        i: value & 0x04 != 0,
        d: value & 0x08 != 0,
        b: false,
        v: value & 0x40 != 0,
        n: value & 0x80 != 0,
    }
}

impl Status {
    /// The status register with every flag clear.
    pub open spec fn spec_default() -> Status {
        Status { c: false, z: false, i: false, d: false, b: false, v: false, n: false }
    }

    /// Packs the flags for a stack push; see [`spec_pushed_bits`].
    pub fn pushed_bits(&self) -> (r: u8)
        ensures
            r == spec_pushed_bits(*self),
    {
        (if self.c {
            1u8
        } else {
            0u8
        }) + (if self.z {
            2u8
        } else {
            0u8
        }) + (if self.i {
            4u8
        } else {
            0u8
        }) + (if self.d {
            8u8
        } else {
            0u8
        }) + 48u8 + (if self.v {
            64u8
        } else {
            0u8
        }) + (if self.n {
            128u8
        } else {
            0u8
        })
    }

    /// Unpacks a byte pulled from the stack; see [`spec_pulled_status`].
    pub fn from_pulled(value: u8) -> (r: Status)
        ensures
            r == spec_pulled_status(value),
    {
        Status {
            c: value & 0x01 != 0,
            z: value & 0x02 != 0,
            i: value & 0x04 != 0,
            d: value & 0x08 != 0,
            b: false,
            v: value & 0x40 != 0,
            n: value & 0x80 != 0,
        }
    }

    pub fn set_carry(&mut self, state: bool)
        ensures
            *final(self) == (Status { c: state, ..*old(self) }),
    {
        self.c = state;
    }

    pub fn carry_flag(&self) -> (r: bool)
        ensures
            r == self.c,
    {
        self.c
    }

    pub fn set_zero(&mut self, state: bool)
        ensures
            *final(self) == (Status { z: state, ..*old(self) }),
    {
        self.z = state;
    }

    pub fn zero_flag(&self) -> (r: bool)
        ensures
            r == self.z,
    {
        self.z
    }

    pub fn set_interrupt(&mut self, state: bool)
        ensures
            *final(self) == (Status { i: state, ..*old(self) }),
    {
        self.i = state;
    }

    pub fn interrupt_flag(&self) -> (r: bool)
        ensures
            r == self.i,
    {
        self.i
    }

    pub fn set_decimal(&mut self, state: bool)
        ensures
            *final(self) == (Status { d: state, ..*old(self) }),
    {
        self.d = state;
    }

    pub fn decimal_flag(&self) -> (r: bool)
        ensures
            r == self.d,
    {
        self.d
    }

    pub fn set_break(&mut self, state: bool)
        ensures
            *final(self) == (Status { b: state, ..*old(self) }),
    {
        self.b = state;
    }

    pub fn break_flag(&self) -> (r: bool)
        ensures
            r == self.b,
    {
        self.b
    }

    pub fn set_overflow(&mut self, state: bool)
        ensures
            *final(self) == (Status { v: state, ..*old(self) }),
    {
        self.v = state;
    }

    pub fn overflow_flag(&self) -> (r: bool)
        ensures
            r == self.v,
    {
        self.v
    }

    pub fn set_negative(&mut self, state: bool)
        ensures
            *final(self) == (Status { n: state, ..*old(self) }),
    {
        self.n = state;
    }

    pub fn negative_flag(&self) -> (r: bool)
        ensures
            r == self.n,
    {
        self.n
    }
}

impl Default for Status {
    /// Every flag starts clear.
    fn default() -> (r: Status)
        ensures
            r == Status::spec_default(),
    {
        Status { c: false, z: false, i: false, d: false, b: false, v: false, n: false }
    }
}

} // verus!
