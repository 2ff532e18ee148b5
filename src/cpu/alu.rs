//! The arithmetic logic unit: byte and word arithmetic, logic, rotates and
//! shifts, with their effect on the flags.
use vstd::prelude::*;

use super::registers::{Flag, Register8b, Registers};
use super::Cpu;
use crate::memory::mbc::MemoryBankController;
use crate::utils::{bytes_to_word, high_byte, low_byte, word, word_to_bytes};

verus! {

broadcast use {Registers::lemma_with_flags, Registers::lemma_with_flag, Registers::lemma_with_flag_wf};

/// A carry as a number.
pub open spec fn carry_in(c: bool) -> int {
    if c {
        1
    } else {
        0
    }
}

/// The 8-bit result of `x + y + c`.
pub open spec fn add_value(x: u8, y: u8, c: bool) -> u8 {
    ((x + y + carry_in(c)) % 256) as u8
}

/// Whether `x + y + c` carries out of bit 3.
pub open spec fn add_half_carry(x: u8, y: u8, c: bool) -> bool {
    x % 16 + y % 16 + carry_in(c) >= 16
}

/// Whether `x + y + c` carries out of bit 7.
pub open spec fn add_carry(x: u8, y: u8, c: bool) -> bool {
    x + y + carry_in(c) >= 256
}

/// The 8-bit result of `x - (y + c)`.
pub open spec fn sub_value(x: u8, y: u8, c: bool) -> u8 {
    ((x - y - carry_in(c)) % 256) as u8
}

/// The half-carry of `x - (y + c)`: the low nibble of the widened subtrahend
/// `y + c` exceeds that of `x`.
pub open spec fn sub_half_carry(x: u8, y: u8, c: bool) -> bool {
    (y + carry_in(c)) % 16 > x % 16
}

/// Whether `x - (y + c)` borrows.
pub open spec fn sub_carry(x: u8, y: u8, c: bool) -> bool {
    x < y + carry_in(c)
}

/// `x + y`, with the carry flag added in when `use_carry`: the register file
/// after setting the flags, and the result.
pub open spec fn add_bytes_spec(regs: Registers, x: u8, y: u8, use_carry: bool) -> (Registers, u8) {
    let c = use_carry && regs.flag(Flag::C);
    let v = add_value(x, y, c);
    (regs.with_flags(v == 0, false, add_half_carry(x, y, c), add_carry(x, y, c)), v)
}

/// `x - y`, with the carry flag subtracted too when `use_carry`: the register
/// file after setting the flags, and the result.
pub open spec fn sub_bytes_spec(regs: Registers, x: u8, y: u8, use_carry: bool) -> (Registers, u8) {
    let c = use_carry && regs.flag(Flag::C);
    let v = sub_value(x, y, c);
    (regs.with_flags(v == 0, true, sub_half_carry(x, y, c), sub_carry(x, y, c)), v)
}

/// `x + y` on words, as an add of the low bytes and an add with carry of the
/// high bytes, with `Z` kept as it was.
pub open spec fn add_words_spec(regs: Registers, x: u16, y: u16) -> (Registers, u16) {
    let (r1, low) = add_bytes_spec(regs, low_byte(x), low_byte(y), false);
    let (r2, high) = add_bytes_spec(r1, high_byte(x), high_byte(y), true);
    (r2.with_flag(Flag::Z, regs.flag(Flag::Z)), word(high, low))
}

/// `x + 1`: sets `Z`, clears `N`, sets `H` on a carry out of bit 3, keeps `C`.
pub open spec fn inc_byte_spec(regs: Registers, x: u8) -> (Registers, u8) {
    let v = x.wrapping_add(1);
    (regs.with_flag(Flag::Z, v == 0).with_flag(Flag::N, false).with_flag(Flag::H, x % 16 == 15), v)
}

/// `x - 1`: sets `Z`, sets `N`, sets `H` on a borrow into bit 3, keeps `C`.
pub open spec fn dec_byte_spec(regs: Registers, x: u8) -> (Registers, u8) {
    let v = x.wrapping_sub(1);
    (regs.with_flag(Flag::Z, v == 0).with_flag(Flag::N, true).with_flag(Flag::H, x % 16 == 0), v)
}

/// `A` replaced by a logic result `v`: `Z` from `v`, `N` and `C` cleared, `H`
/// as given.
pub open spec fn logic_spec(regs: Registers, v: u8, h: bool) -> Registers {
    regs.with_flags(v == 0, false, h, false).with_r8(Register8b::A, v)
}

/// A rotate or shift of one byte.
#[derive(Debug, Clone, Copy, PartialEq, Eq, Structural)]
pub enum RotOp {
    /// rotate left
    Rlc,
    /// rotate right
    Rrc,
    /// rotate left through the carry
    Rl,
    /// rotate right through the carry
    Rr,
    /// shift left
    Sla,
    /// arithmetic shift right
    Sra,
    /// swap nibbles
    Swap,
    /// logical shift right
    Srl,
}

/// The result of a rotate or shift of `x`, with carry flag `c`.
pub open spec fn rotate_value(op: RotOp, x: u8, c: bool) -> u8 {
    match op {
        RotOp::Rlc => (x << 1u8) | (x >> 7u8),
        RotOp::Rrc => (x >> 1u8) | (x << 7u8),
        RotOp::Rl => (x << 1u8) | (if c { 1u8 } else { 0u8 }),
        RotOp::Rr => (x >> 1u8) | (if c { 0x80u8 } else { 0u8 }),
        RotOp::Sla => x << 1u8,
        RotOp::Sra => (x >> 1u8) | (x & 0x80),
        RotOp::Swap => (x << 4u8) | (x >> 4u8),
        RotOp::Srl => x >> 1u8,
    }
}

/// The bit a rotate or shift of `x` moves out into the carry.
pub open spec fn rotate_carry(op: RotOp, x: u8) -> bool {
    match op {
        RotOp::Rlc | RotOp::Rl | RotOp::Sla => x & 0x80 != 0,
        RotOp::Rrc | RotOp::Rr | RotOp::Sra | RotOp::Srl => x & 1 != 0,
        RotOp::Swap => false,
    }
}

/// A rotate or shift of `x`: `Z` from the result, `N` and `H` cleared, `C`
/// the bit moved out.
pub open spec fn rotate_spec(regs: Registers, op: RotOp, x: u8) -> (Registers, u8) {
    let v = rotate_value(op, x, regs.flag(Flag::C));
    (regs.with_flags(v == 0, false, false, rotate_carry(op, x)), v)
}

/// Decimal adjust of `A` after a BCD add or subtract.
pub open spec fn daa_spec(regs: Registers) -> Registers {
    let a = regs.r8(Register8b::A);
    let n = regs.flag(Flag::N);
    let h = regs.flag(Flag::H);
    let c = regs.flag(Flag::C);
    if !n {
        let c1 = c || a > 0x99;
        let a1 = if c1 {
            a.wrapping_add(0x60)
        } else {
            a
        };
        let a2 = if h || a % 16 > 9 {
            a1.wrapping_add(0x06)
        } else {
            a1
        };
        regs.with_r8(Register8b::A, a2).with_flags(a2 == 0, n, false, c1)
    } else {
        let a1 = if c {
            a.wrapping_sub(0x60)
        } else {
            a
        };
        let a2 = if h {
            a1.wrapping_sub(0x06)
        } else {
            a1
        };
        regs.with_r8(Register8b::A, a2).with_flags(a2 == 0, n, false, c)
    }
}

/// The byte truncation of a widened sum is the sum modulo 256.
proof fn lemma_narrow(v: u16)
    ensures
        (v & 0xFF) as u8 == v % 256,
{
    assert((v & 0xFF) as u8 == v % 256) by (bit_vector);
}

/// The carry into bit 4 is bit 4 of `x ^ y ^ (x + y + c)`.
proof fn lemma_half_carry(x: u16, y: u16, s: u16)
    requires
        x < 256,
        y < 256,
        s == x + y || s == x + y + 1,
    ensures
        ((x ^ y ^ s) & 0x10 != 0) == (x % 16 + y % 16 + (s - x - y) >= 16),
        (s & 0x100 != 0) == (s >= 256),
{
    assert(((x ^ y ^ s) & 0x10 != 0) == ((x & 15) + (y & 15) + (s - x - y) >= 16)) by (bit_vector)
        requires
            x < 256,
            y < 256,
            s == x + y || s == x + y + 1,
    ;
    assert((s & 0x100 != 0) == (s >= 256)) by (bit_vector)
        requires
            x < 256,
            y < 256,
            s == x + y || s == x + y + 1,
    ;
    assert(x & 15 == x % 16 && y & 15 == y % 16) by (bit_vector);
}

/// The low nibble by mask.
proof fn lemma_nibble(v: u16)
    ensures
        v & 0x0F == v % 16,
{
    assert(v & 0x0F == v % 16) by (bit_vector);
}

/// A word add as two byte adds, the carry chained from the low bytes into
/// the high bytes.
proof fn lemma_add_words_bytes(x: u16, y: u16)
    ensures
        ({
            let c1 = add_carry(low_byte(x), low_byte(y), false);
            &&& word(
                add_value(high_byte(x), high_byte(y), c1),
                add_value(low_byte(x), low_byte(y), false),
            ) == x.wrapping_add(y)
            &&& add_half_carry(high_byte(x), high_byte(y), c1) == (x % 4096 + y % 4096 >= 4096)
            &&& add_carry(high_byte(x), high_byte(y), c1) == (x + y >= 65536)
        }),
{
    let xl = low_byte(x) as int;
    let yl = low_byte(y) as int;
    let xh = high_byte(x) as int;
    let yh = high_byte(y) as int;
    let c1 = carry_in(add_carry(low_byte(x), low_byte(y), false));
    assert(x == xh * 256 + xl);
    assert(y == yh * 256 + yl);
    assert(x % 4096 == (xh % 16) * 256 + xl);
    assert(y % 4096 == (yh % 16) * 256 + yl);
    assert(add_value(low_byte(x), low_byte(y), false) == xl + yl - 256 * c1);
    assert(x + y == 256 * (xh + yh + c1) + (xl + yl - 256 * c1));
}

/// Adding two bytes without carry wraps modulo 256, and subtracting the
/// second byte from the sum gives the first back, whatever the flags were.
pub proof fn law_add_sub_round_trip(regs: Registers, x: u8, y: u8)
    ensures
        add_bytes_spec(regs, x, y, false).1 == x.wrapping_add(y),
        sub_bytes_spec(
            add_bytes_spec(regs, x, y, false).0,
            add_bytes_spec(regs, x, y, false).1,
            y,
            false,
        ).1 == x,
{
    let sum = add_bytes_spec(regs, x, y, false).1;
    assert(sum == (x + y) % 256);
    assert((sum - y) % 256 == x) by {
        if x + y >= 256 {
            assert(sum == x + y - 256);
        } else {
            assert(sum == x + y);
        }
    }
}

impl<M: MemoryBankController> Cpu<M> {
    /// Adds two bytes, with the carry flag added in when `use_carry`, and sets
    /// the flags: `Z` on a zero result, `N` cleared, `H` and `C` on carries out
    /// of bits 3 and 7.
    pub fn alu_add_bytes(&mut self, x: u8, y: u8, use_carry: bool) -> (r: u8)
        requires
            old(self).wf(),
        ensures
            final(self).wf(),
            final(self)@ == old(self)@.with_regs(add_bytes_spec(old(self)@.regs, x, y, use_carry).0),
            r == add_bytes_spec(old(self)@.regs, x, y, use_carry).1,
    {
        let c: u16 = if use_carry && self.registers.flag_value(Flag::C) {
            1
        } else {
            0
        };
        let x = x as u16;
        let y = y as u16;
        let result: u16 = x + y + c;
        let half = ((x ^ y ^ result) & 0x10) != 0;
        let carry = (result & 0x100) != 0;
        let narrowed = (result & 0xFF) as u8;
        proof {
            lemma_half_carry(x, y, result);
            lemma_narrow(result);
        }
        self.registers.set_flags(narrowed == 0, false, half, carry);
        narrowed
    }

    /// Subtracts `y`, and the carry flag too when `use_carry`, from `x`, and
    /// sets the flags: `Z` on a zero result, `N` set, `H` when the low nibble
    /// of the widened subtrahend exceeds that of `x`, `C` on a borrow.
    pub fn alu_sub_bytes(&mut self, x: u8, y: u8, use_carry: bool) -> (r: u8)
        requires
            old(self).wf(),
        ensures
            final(self).wf(),
            final(self)@ == old(self)@.with_regs(sub_bytes_spec(old(self)@.regs, x, y, use_carry).0),
            r == sub_bytes_spec(old(self)@.regs, x, y, use_carry).1,
    {
        let c: u16 = if use_carry && self.registers.flag_value(Flag::C) {
            1
        } else {
            0
        };
        let x = x as u16;
        let y = y as u16 + c;
        let result = x.wrapping_sub(y);
        let half = (y & 0x0F) > (x & 0x0F);
        let carry = (result & 0x100) != 0;
        let narrowed = (result & 0xFF) as u8;
        proof {
            lemma_nibble(x);
            lemma_nibble(y);
            lemma_narrow(result);
            assert(carry == (x < y)) by (bit_vector)
                requires
                    x < 256,
                    y < 257,
                    result == (if x - y < 0 { x - y + 65536 } else { x - y }),
                    carry == ((result & 0x100) != 0),
            ;
        }
        self.registers.set_flags(narrowed == 0, true, half, carry);
        narrowed
    }

    /// Adds two words as two byte adds, low bytes first and the carry chained
    /// into the high bytes; `Z` is kept as it was. So `N` is cleared, `H` is
    /// the carry out of bit 11 and `C` the carry out of bit 15.
    pub fn alu_add_words(&mut self, x: u16, y: u16) -> (r: u16)
        requires
            old(self).wf(),
        ensures
            final(self).wf(),
            final(self)@ == old(self)@.with_regs(add_words_spec(old(self)@.regs, x, y).0),
            r == add_words_spec(old(self)@.regs, x, y).1,
            r == x.wrapping_add(y),
            final(self)@.regs.flag(Flag::Z) == old(self)@.regs.flag(Flag::Z),
            !final(self)@.regs.flag(Flag::N),
            final(self)@.regs.flag(Flag::H) == (x % 4096 + y % 4096 >= 4096),
            final(self)@.regs.flag(Flag::C) == (x + y >= 65536),
    {
        let (x_high, x_low) = word_to_bytes(x);
        let (y_high, y_low) = word_to_bytes(y);

        let z = self.registers.flag_value(Flag::Z);

        let low = self.alu_add_bytes(x_low, y_low, false);
        let high = self.alu_add_bytes(x_high, y_high, true);

        self.registers.set_flag(Flag::Z, z);

        let r = bytes_to_word(high, low);
        proof {
            lemma_add_words_bytes(x, y);
        }
        r
    }

    /// Increments a byte, wrapping: `Z` on a zero result, `N` cleared, `H` on
    /// a carry out of bit 3; `C` is kept.
    pub fn alu_inc_byte(&mut self, x: u8) -> (r: u8)
        requires
            old(self).wf(),
        ensures
            final(self).wf(),
            final(self)@ == old(self)@.with_regs(inc_byte_spec(old(self)@.regs, x).0),
            r == inc_byte_spec(old(self)@.regs, x).1,
    {
        let result = x.wrapping_add(1);
        self.registers.set_flag(Flag::Z, result == 0);
        self.registers.set_flag(Flag::N, false);
        proof {
            lemma_nibble(x as u16);
        }
        self.registers.set_flag(Flag::H, (x & 0x0F) + 1 > 0x0F);
        result
    }

    /// Decrements a byte, wrapping: `Z` on a zero result, `N` set, `H` on a
    /// borrow into bit 3; `C` is kept.
    pub fn alu_dec_byte(&mut self, x: u8) -> (r: u8)
        requires
            old(self).wf(),
        ensures
            final(self).wf(),
            final(self)@ == old(self)@.with_regs(dec_byte_spec(old(self)@.regs, x).0),
            r == dec_byte_spec(old(self)@.regs, x).1,
    {
        let result = x.wrapping_sub(1);
        self.registers.set_flag(Flag::Z, result == 0);
        self.registers.set_flag(Flag::N, true);
        proof {
            lemma_nibble(x as u16);
        }
        self.registers.set_flag(Flag::H, (x & 0x0F) == 0);
        result
    }

    /// `A = A & y`: `Z` from the result, `N` and `C` cleared, `H` set.
    pub fn alu_and_a(&mut self, y: u8)
        requires
            old(self).wf(),
        ensures
            final(self).wf(),
            final(self)@ == old(self)@.with_regs(
                logic_spec(old(self)@.regs, old(self)@.regs.r8(Register8b::A) & y, true),
            ),
    {
        let a = self.registers.get_r8(Register8b::A);
        let result = a & y;
        self.registers.set_flags(result == 0, false, true, false);
        self.registers.set_r8(Register8b::A, result);
    }

    /// `A = A ^ y`: `Z` from the result, `N`, `H` and `C` cleared.
    pub fn alu_xor_a(&mut self, y: u8)
        requires
            old(self).wf(),
        ensures
            final(self).wf(),
            final(self)@ == old(self)@.with_regs(
                logic_spec(old(self)@.regs, old(self)@.regs.r8(Register8b::A) ^ y, false),
            ),
    {
        let a = self.registers.get_r8(Register8b::A);
        let result = a ^ y;
        self.registers.set_flags(result == 0, false, false, false);
        self.registers.set_r8(Register8b::A, result);
    }

    /// `A = A | y`: `Z` from the result, `N`, `H` and `C` cleared.
    pub fn alu_or_a(&mut self, y: u8)
        requires
            old(self).wf(),
        ensures
            final(self).wf(),
            final(self)@ == old(self)@.with_regs(
                logic_spec(old(self)@.regs, old(self)@.regs.r8(Register8b::A) | y, false),
            ),
    {
        let a = self.registers.get_r8(Register8b::A);
        let result = a | y;
        self.registers.set_flags(result == 0, false, false, false);
        self.registers.set_r8(Register8b::A, result);
    }

    /// Compares `y` with `A`: the flags of `A - y`, with `A` unchanged.
    pub fn alu_cp_a(&mut self, y: u8)
        requires
            old(self).wf(),
        ensures
            final(self).wf(),
            final(self)@ == old(self)@.with_regs(
                sub_bytes_spec(old(self)@.regs, old(self)@.regs.r8(Register8b::A), y, false).0,
            ),
    {
        let a = self.registers.get_r8(Register8b::A);
        let _ = self.alu_sub_bytes(a, y, false);
    }

    /// Rotates or shifts a byte: `Z` from the result, `N` and `H` cleared, `C`
    /// the bit moved out.
    pub fn bit_op_rotate(&mut self, op: RotOp, x: u8) -> (r: u8)
        requires
            old(self).wf(),
        ensures
            final(self).wf(),
            final(self)@ == old(self)@.with_regs(rotate_spec(old(self)@.regs, op, x).0),
            r == rotate_spec(old(self)@.regs, op, x).1,
    {
        let c = self.registers.flag_value(Flag::C);
        let value: u8 = match op {
            RotOp::Rlc => (x << 1u8) | (x >> 7u8),
            RotOp::Rrc => (x >> 1u8) | (x << 7u8),
            RotOp::Rl => (x << 1u8) | (if c { 1u8 } else { 0u8 }),
            RotOp::Rr => (x >> 1u8) | (if c { 0x80u8 } else { 0u8 }),
            RotOp::Sla => x << 1u8,
            RotOp::Sra => (x >> 1u8) | (x & 0x80),
            RotOp::Swap => (x << 4u8) | (x >> 4u8),
            RotOp::Srl => x >> 1u8,
        };
        let carry_out = match op {
            RotOp::Rlc | RotOp::Rl | RotOp::Sla => x & 0x80 != 0,
            RotOp::Rrc | RotOp::Rr | RotOp::Sra | RotOp::Srl => x & 1 != 0,
            RotOp::Swap => false,
        };
        self.registers.set_flags(value == 0, false, false, carry_out);
        value
    }

    /// Rotates a byte left by one bit; bit 7 goes both to bit 0 and to `C`.
    pub fn bit_op_rlc(&mut self, x: u8) -> (r: u8)
        requires
            old(self).wf(),
        ensures
            final(self).wf(),
            final(self)@ == old(self)@.with_regs(rotate_spec(old(self)@.regs, RotOp::Rlc, x).0),
            r == rotate_spec(old(self)@.regs, RotOp::Rlc, x).1,
    {
        self.bit_op_rotate(RotOp::Rlc, x)
    }

    /// Rotates a byte right by one bit; bit 0 goes both to bit 7 and to `C`.
    pub fn bit_op_rrc(&mut self, x: u8) -> (r: u8)
        requires
            old(self).wf(),
        ensures
            final(self).wf(),
            final(self)@ == old(self)@.with_regs(rotate_spec(old(self)@.regs, RotOp::Rrc, x).0),
            r == rotate_spec(old(self)@.regs, RotOp::Rrc, x).1,
    {
        self.bit_op_rotate(RotOp::Rrc, x)
    }

    /// Decimal-adjusts `A` after a BCD add or subtract.
    pub fn alu_daa(&mut self)
        requires
            old(self).wf(),
        ensures
            final(self).wf(),
            final(self)@ == old(self)@.with_regs(daa_spec(old(self)@.regs)),
    {
        let a = self.registers.get_r8(Register8b::A);
        let n = self.registers.flag_value(Flag::N);
        let h = self.registers.flag_value(Flag::H);
        let c = self.registers.flag_value(Flag::C);
        let mut value = a;
        let mut carry = c;
        proof {
            lemma_nibble(a as u16);
        }
        if !n {
            if c || a > 0x99 {
                value = value.wrapping_add(0x60);
                carry = true;
            }
            if h || (a & 0x0F) > 0x09 {
                value = value.wrapping_add(0x06);
            }
        } else {
            if c {
                value = value.wrapping_sub(0x60);
            }
            if h {
                value = value.wrapping_sub(0x06);
            }
        }
        self.registers.set_r8(Register8b::A, value);
        self.registers.set_flags(value == 0, n, false, carry);
    }
}

} // verus!
