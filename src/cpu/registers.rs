//! The register file: eight 8-bit cells, the stack pointer and the program
//! counter, with 16-bit pair views and the flag bits packed into `F`.
use vstd::prelude::*;

use crate::utils::{bytes_to_word, high_byte, low_byte, word, word_to_bytes};

verus! {

/// One of the eight 8-bit registers.
#[derive(Debug, Clone, Copy, PartialEq, Eq, Structural)]
pub enum Register8b {
    A,
    F,
    B,
    C,
    D,
    E,
    H,
    L,
}

/// A 16-bit register: one of the four pairs of 8-bit registers, the stack
/// pointer or the program counter.
#[derive(Debug, Clone, Copy, PartialEq, Eq, Structural)]
pub enum Register16b {
    AF,
    BC,
    DE,
    HL,
    SP,
    PC,
}

/// One of the four flags held in the high nibble of `F`.
#[derive(Debug, Clone, Copy, PartialEq, Eq, Structural)]
pub enum Flag {
    /// zero
    Z,
    /// subtract
    N,
    /// half carry
    H,
    /// carry
    C,
}

/// The CPU register file.
///
/// The low nibble of `F` is always zero: every write to `F` or `AF` masks it.
#[derive(Debug, Clone, Copy)]
pub struct Registers {
    pub(crate) a: u8,
    pub(crate) f: u8,
    pub(crate) b: u8,
    pub(crate) c: u8,
    pub(crate) d: u8,
    pub(crate) e: u8,
    pub(crate) h: u8,
    pub(crate) l: u8,
    pub sp: u16,
    pub pc: u16,
}

/// The bit of `F` that holds a flag.
pub open spec fn flag_mask(flag: Flag) -> u8 {
    match flag {
        Flag::Z => 0x80,
        Flag::N => 0x40,
        Flag::H => 0x20,
        Flag::C => 0x10,
    }
}

/// The value of `F` that holds the four given flags.
pub open spec fn flag_byte(z: bool, n: bool, h: bool, c: bool) -> u8 {
    (if z { 0x80u8 } else { 0u8 }) | (if n { 0x40u8 } else { 0u8 }) | (if h { 0x20u8 } else {
        0u8
    }) | (if c { 0x10u8 } else { 0u8 })
}

proof fn lemma_flag_byte_bits(z: bool, n: bool, h: bool, c: bool)
    ensures
        (flag_byte(z, n, h, c) & 0x80 != 0) == z,
        (flag_byte(z, n, h, c) & 0x40 != 0) == n,
        (flag_byte(z, n, h, c) & 0x20 != 0) == h,
        (flag_byte(z, n, h, c) & 0x10 != 0) == c,
        flag_byte(z, n, h, c) & 0x0F == 0,
{
    let zb: u8 = if z { 0x80u8 } else { 0u8 };
    let nb: u8 = if n { 0x40u8 } else { 0u8 };
    let hb: u8 = if h { 0x20u8 } else { 0u8 };
    let cb: u8 = if c { 0x10u8 } else { 0u8 };
    assert({
        let v = zb | nb | hb | cb;
        &&& (v & 0x80 != 0) == (zb == 0x80)
        &&& (v & 0x40 != 0) == (nb == 0x40)
        &&& (v & 0x20 != 0) == (hb == 0x20)
        &&& (v & 0x10 != 0) == (cb == 0x10)
        &&& v & 0x0F == 0
    }) by (bit_vector)
        requires
            zb == 0x80 || zb == 0,
            nb == 0x40 || nb == 0,
            hb == 0x20 || hb == 0,
            cb == 0x10 || cb == 0,
    ;
}

proof fn lemma_mask_update(f: u8, m: u8, other: u8, value: bool)
    requires
        m == 0x80 || m == 0x40 || m == 0x20 || m == 0x10,
        other == 0x80 || other == 0x40 || other == 0x20 || other == 0x10,
    ensures
        ((if value { f | m } else { f & !m }) & m != 0) == value,
        other != m ==> ((if value { f | m } else { f & !m }) & other != 0) == (f & other != 0),
        (if value { f | m } else { f & !m }) & 0x0F == f & 0x0F,
{
    assert((f | m) & m != 0 && (f & !m) & m == 0) by (bit_vector)
        requires
            m == 0x80 || m == 0x40 || m == 0x20 || m == 0x10,
    ;
    assert(other != m ==> ((f | m) & other != 0) == (f & other != 0) && ((f & !m) & other != 0) == (f
        & other != 0)) by (bit_vector)
        requires
            m == 0x80 || m == 0x40 || m == 0x20 || m == 0x10,
            other == 0x80 || other == 0x40 || other == 0x20 || other == 0x10,
    ;
    assert((f | m) & 0x0F == f & 0x0F && (f & !m) & 0x0F == f & 0x0F) by (bit_vector)
        requires
            m == 0x80 || m == 0x40 || m == 0x20 || m == 0x10,
    ;
}

impl Registers {
    /// Holds when the low nibble of `F` is zero.
    pub open(crate) spec fn wf(self) -> bool {
        self.f & 0x0F == 0
    }

    /// The value of an 8-bit register.
    pub open(crate) spec fn r8(self, reg: Register8b) -> u8 {
        match reg {
            Register8b::A => self.a,
            Register8b::F => self.f,
            Register8b::B => self.b,
            Register8b::C => self.c,
            Register8b::D => self.d,
            Register8b::E => self.e,
            Register8b::H => self.h,
            Register8b::L => self.l,
        }
    }

    /// The register file after writing `value` to an 8-bit register; a write
    /// to `F` clears its low nibble.
    pub open(crate) spec fn with_r8(self, reg: Register8b, value: u8) -> Registers {
        match reg {
            Register8b::A => Registers { a: value, ..self },
            Register8b::F => Registers { f: value & 0xF0, ..self },
            Register8b::B => Registers { b: value, ..self },
            Register8b::C => Registers { c: value, ..self },
            Register8b::D => Registers { d: value, ..self },
            Register8b::E => Registers { e: value, ..self },
            Register8b::H => Registers { h: value, ..self },
            Register8b::L => Registers { l: value, ..self },
        }
    }

    /// The value of a 16-bit register; a pair reads its first-named register
    /// as the high byte.
    pub open(crate) spec fn r16(self, reg: Register16b) -> u16 {
        match reg {
            Register16b::AF => word(self.a, self.f),
            Register16b::BC => word(self.b, self.c),
            Register16b::DE => word(self.d, self.e),
            Register16b::HL => word(self.h, self.l),
            Register16b::SP => self.sp,
            Register16b::PC => self.pc,
        }
    }

    /// The register file after writing `value` to a 16-bit register.
    pub open(crate) spec fn with_r16(self, reg: Register16b, value: u16) -> Registers {
        match reg {
            Register16b::AF => Registers { a: high_byte(value), f: low_byte(value) & 0xF0, ..self },
            Register16b::BC => Registers { b: high_byte(value), c: low_byte(value), ..self },
            Register16b::DE => Registers { d: high_byte(value), e: low_byte(value), ..self },
            Register16b::HL => Registers { h: high_byte(value), l: low_byte(value), ..self },
            Register16b::SP => Registers { sp: value, ..self },
            Register16b::PC => Registers { pc: value, ..self },
        }
    }

    /// The value of a flag.
    pub open(crate) spec fn flag(self, flag: Flag) -> bool {
        self.f & flag_mask(flag) != 0
    }

    /// The register file after setting one flag.
    pub open(crate) spec fn with_flag(self, flag: Flag, value: bool) -> Registers {
        let m = flag_mask(flag);
        Registers { f: if value { self.f | m } else { self.f & !m }, ..self }
    }

    /// The register file after setting all four flags at once.
    pub open(crate) spec fn with_flags(self, z: bool, n: bool, h: bool, c: bool) -> Registers {
        Registers { f: flag_byte(z, n, h, c), ..self }
    }

    /// What each flag reads after all four were set.
    pub broadcast proof fn lemma_with_flags(self, z: bool, n: bool, h: bool, c: bool)
        ensures
            (#[trigger] self.with_flags(z, n, h, c)).flag(Flag::Z) == z,
            self.with_flags(z, n, h, c).flag(Flag::N) == n,
            self.with_flags(z, n, h, c).flag(Flag::H) == h,
            self.with_flags(z, n, h, c).flag(Flag::C) == c,
            self.with_flags(z, n, h, c).wf(),
    {
        lemma_flag_byte_bits(z, n, h, c);
    }

    /// What each flag reads after one was set.
    pub broadcast proof fn lemma_with_flag(self, flag: Flag, value: bool, other: Flag)
        ensures
            #[trigger] self.with_flag(flag, value).flag(other) == if other == flag {
                value
            } else {
                self.flag(other)
            },
            self.wf() ==> self.with_flag(flag, value).wf(),
    {
        lemma_mask_update(self.f, flag_mask(flag), flag_mask(other), value);
    }

    /// Keeps the register file well formed.
    pub broadcast proof fn lemma_with_flag_wf(self, flag: Flag, value: bool)
        ensures
            self.wf() ==> #[trigger] self.with_flag(flag, value).wf(),
    {
        lemma_mask_update(self.f, flag_mask(flag), flag_mask(Flag::Z), value);
    }

    /// A register file with every register zero.
    pub fn new() -> (r: Registers)
        ensures
            forall|reg: Register8b| #[trigger] r.r8(reg) == 0,
            r.r16(Register16b::SP) == 0,
            r.r16(Register16b::PC) == 0,
            r.wf(),
    {
        assert(0u8 & 0x0F == 0) by (bit_vector);
        Registers { a: 0, f: 0, b: 0, c: 0, d: 0, e: 0, h: 0, l: 0, sp: 0, pc: 0 }
    }

    /// Writes an 8-bit register; a write to `F` clears its low nibble.
    pub fn set_r8(&mut self, reg: Register8b, value: u8)
        ensures
            *final(self) == old(self).with_r8(reg, value),
            old(self).wf() ==> final(self).wf(),
    {
        match reg {
            Register8b::A => self.a = value,
            Register8b::F => {
                self.f = value & 0xF0;
                assert(value & 0xF0 & 0x0F == 0) by (bit_vector);
            },
            Register8b::B => self.b = value,
            Register8b::C => self.c = value,
            Register8b::D => self.d = value,
            Register8b::E => self.e = value,
            Register8b::H => self.h = value,
            Register8b::L => self.l = value,
        }
    }

    /// Reads an 8-bit register.
    pub fn get_r8(&self, reg: Register8b) -> (r: u8)
        ensures
            r == self.r8(reg),
    {
        match reg {
            Register8b::A => self.a,
            Register8b::F => self.f,
            Register8b::B => self.b,
            Register8b::C => self.c,
            Register8b::D => self.d,
            Register8b::E => self.e,
            Register8b::H => self.h,
            Register8b::L => self.l,
        }
    }

    /// Writes a 16-bit register; the high byte goes to the first-named
    /// register of a pair, and a write to `AF` clears the low nibble of `F`.
    pub fn set_r16(&mut self, reg: Register16b, value: u16)
        ensures
            *final(self) == old(self).with_r16(reg, value),
            old(self).wf() ==> final(self).wf(),
    {
        let (high, low) = word_to_bytes(value);
        match reg {
            Register16b::AF => {
                self.a = high;
                self.f = low & 0xF0;
                assert(low & 0xF0 & 0x0F == 0) by (bit_vector);
            },
            Register16b::BC => {
                self.b = high;
                self.c = low;
            },
            Register16b::DE => {
                self.d = high;
                self.e = low;
            },
            Register16b::HL => {
                self.h = high;
                self.l = low;
            },
            Register16b::SP => self.sp = value,
            Register16b::PC => self.pc = value,
        }
    }

    /// Reads a 16-bit register.
    pub fn get_r16(&self, reg: Register16b) -> (r: u16)
        ensures
            r == self.r16(reg),
    {
        match reg {
            Register16b::AF => bytes_to_word(self.a, self.f),
            Register16b::BC => bytes_to_word(self.b, self.c),
            Register16b::DE => bytes_to_word(self.d, self.e),
            Register16b::HL => bytes_to_word(self.h, self.l),
            Register16b::SP => self.sp,
            Register16b::PC => self.pc,
        }
    }

    /// Sets or clears one flag, leaving the others as they were.
    pub fn set_flag(&mut self, flag: Flag, value: bool)
        ensures
            *final(self) == old(self).with_flag(flag, value),
            final(self).flag(flag) == value,
            forall|other: Flag| other != flag ==> final(self).flag(other) == old(self).flag(other),
            old(self).wf() ==> final(self).wf(),
    {
        let mask: u8 = match flag {
            Flag::Z => 0b_1000_0000,
            Flag::N => 0b_0100_0000,
            Flag::H => 0b_0010_0000,
            Flag::C => 0b_0001_0000,
        };
        if value {
            self.f = self.f | mask;
        } else {
            self.f = self.f & !mask;
        }
        proof {
            assert forall|other: Flag| #[trigger] final(self).flag(other) == if other == flag {
                value
            } else {
                old(self).flag(other)
            } by {
                old(self).lemma_with_flag(flag, value, other);
            }
            old(self).lemma_with_flag_wf(flag, value);
        }
    }

    /// Sets all four flags at once.
    pub fn set_flags(&mut self, z: bool, n: bool, h: bool, c: bool)
        ensures
            *final(self) == old(self).with_flags(z, n, h, c),
            final(self).wf(),
    {
        let zb: u8 = if z { 0x80 } else { 0 };
        let nb: u8 = if n { 0x40 } else { 0 };
        let hb: u8 = if h { 0x20 } else { 0 };
        let cb: u8 = if c { 0x10 } else { 0 };
        self.f = zb | nb | hb | cb;
        proof {
            old(self).lemma_with_flags(z, n, h, c);
        }
    }

    /// Reads one flag.
    pub fn flag_value(&self, flag: Flag) -> (r: bool)
        ensures
            r == self.flag(flag),
    {
        let mask: u8 = match flag {
            Flag::Z => 0b_1000_0000,
            Flag::N => 0b_0100_0000,
            Flag::H => 0b_0010_0000,
            Flag::C => 0b_0001_0000,
        };
        (self.f & mask) != 0
    }
}

} // verus!
