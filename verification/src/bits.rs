//! Small arithmetic helpers shared by the whole core: wrapping 8/16-bit
//! arithmetic, composing and splitting register pairs, and the nibble
//! carry/borrow tests that drive the half-carry flag.

use vstd::prelude::*;

verus! {

/// The value of a 16-bit register pair built from a high and a low byte.
pub open spec fn pair(hi: u8, lo: u8) -> u16 {
    (hi * 256 + lo) as u16
}

/// The high byte of a 16-bit value.
pub open spec fn hi_byte(v: u16) -> u8 {
    (v / 256) as u8
}

/// The low byte of a 16-bit value.
pub open spec fn lo_byte(v: u16) -> u8 {
    (v % 256) as u8
}

/// Reduction of an arbitrary integer into the 8-bit range, as 8-bit
/// register arithmetic wraps.
pub open spec fn wrap8(v: int) -> u8 {
    (v % 256) as u8
}

/// Reduction of an arbitrary integer into the 16-bit range, as 16-bit
/// pair/pointer arithmetic wraps.
pub open spec fn wrap16(v: int) -> u16 {
    (v % 65536) as u16
}

/// The value of a displacement byte read as a signed (two's-complement)
/// quantity, as relative jumps interpret their operand.
pub open spec fn signed8(b: u8) -> int {
    if b < 128 {
        b as int
    } else {
        b - 256
    }
}

/// Whether adding `value` to `initial` carries out of bit 3 into bit 4;
/// this is the half-carry condition of the ISA's addition instructions,
/// computed from the raw low nibbles of the operands.
pub fn half_carry_add(initial: u8, value: u8) -> (r: bool)
    ensures
        r == (initial % 16 + value % 16 >= 16),
{
    initial % 16 + value % 16 >= 16
}

/// Whether subtracting `value` from `initial` borrows from bit 4 into
/// bit 3; this is the half-carry (half-borrow) condition of the ISA's
/// subtraction instructions, computed from the raw low nibbles.
pub fn half_carry_sub(initial: u8, value: u8) -> (r: bool)
    ensures
        r == (initial % 16 < value % 16),
{
    initial % 16 < value % 16
}

/// Reduction of an arbitrary integer into the 64-bit range, for the
/// cycle counter.
pub open spec fn wrap64(v: int) -> u64 {
    (v % 0x1_0000_0000_0000_0000) as u64
}

/// Wrapping 16-bit addition.
pub fn wadd16(a: u16, b: u16) -> (r: u16)
    ensures
        r == wrap16(a + b),
{
    let s: u32 = a as u32 + b as u32;
    if s >= 65536 {
        proof {
            vstd::arithmetic::div_mod::lemma_fundamental_div_mod_converse(
                a + b,
                65536,
                1,
                a + b - 65536,
            );
        }
        (s - 65536) as u16
    } else {
        proof {
            vstd::arithmetic::div_mod::lemma_small_mod((a + b) as nat, 65536);
        }
        s as u16
    }
}

/// Wrapping 16-bit subtraction.
pub fn wsub16(a: u16, b: u16) -> (r: u16)
    ensures
        r == wrap16(a - b),
{
    if a >= b {
        proof {
            vstd::arithmetic::div_mod::lemma_small_mod((a - b) as nat, 65536);
        }
        a - b
    } else {
        proof {
            vstd::arithmetic::div_mod::lemma_fundamental_div_mod_converse(
                a - b,
                65536,
                -1,
                a - b + 65536,
            );
        }
        (a as u32 + 65536 - b as u32) as u16
    }
}

/// Wrapping 8-bit addition.
pub fn wadd8(a: u8, b: u8) -> (r: u8)
    ensures
        r == wrap8(a + b),
{
    let s: u16 = a as u16 + b as u16;
    if s >= 256 {
        proof {
            vstd::arithmetic::div_mod::lemma_fundamental_div_mod_converse(
                a + b,
                256,
                1,
                a + b - 256,
            );
        }
        (s - 256) as u8
    } else {
        proof {
            vstd::arithmetic::div_mod::lemma_small_mod((a + b) as nat, 256);
        }
        s as u8
    }
}

/// Wrapping 8-bit subtraction.
pub fn wsub8(a: u8, b: u8) -> (r: u8)
    ensures
        r == wrap8(a - b),
{
    if a >= b {
        proof {
            vstd::arithmetic::div_mod::lemma_small_mod((a - b) as nat, 256);
        }
        a - b
    } else {
        proof {
            vstd::arithmetic::div_mod::lemma_fundamental_div_mod_converse(
                a - b,
                256,
                -1,
                a - b + 256,
            );
        }
        (a as u16 + 256 - b as u16) as u8
    }
}

/// Compose a 16-bit value from a high and a low byte.
pub fn make_pair(hi: u8, lo: u8) -> (r: u16)
    ensures
        r == pair(hi, lo),
{
    hi as u16 * 256 + lo as u16
}

/// The high byte of a 16-bit value.
pub fn split_hi(v: u16) -> (r: u8)
    ensures
        r == hi_byte(v),
{
    (v / 256) as u8
}

/// The low byte of a 16-bit value.
pub fn split_lo(v: u16) -> (r: u8)
    ensures
        r == lo_byte(v),
{
    (v % 256) as u8
}

/// Rebuilding a 16-bit value from its two bytes gives it back.
pub proof fn lemma_pair_join(v: u16)
    ensures
        pair(hi_byte(v), lo_byte(v)) == v,
{
    assert((v / 256) * 256 + v % 256 == v) by (nonlinear_arith);
}

} // verus!
