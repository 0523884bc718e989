//! Eight- and sixteen-bit arithmetic with the half-carry and carry flags that
//! the processor reports.
use vstd::prelude::*;

verus! {

/// Carry out of bit 3 when adding two bytes.
pub open spec fn half_carry_add8(a: u8, b: u8) -> bool {
    a % 16 + b % 16 > 15
}

/// Borrow into bit 3 when subtracting `b` from `a`.
pub open spec fn half_borrow_sub8(a: u8, b: u8) -> bool {
    a % 16 < b % 16
}

/// Carry out of bit 11 when adding two words.
pub open spec fn half_carry_add16(a: u16, b: u16) -> bool {
    a % 4096 + b % 4096 > 4095
}

/// Borrow into bit 11 when subtracting `b` from `a`.
pub open spec fn half_borrow_sub16(a: u16, b: u16) -> bool {
    a % 4096 < b % 4096
}

/// Sum of two bytes with the half-carry and the carry.
pub fn half_overflowing_add8(a: u8, b: u8) -> (r: (u8, bool, bool))
    ensures
        r.0 == (a + b) % 256,
        r.1 == half_carry_add8(a, b),
        r.2 == (a + b > 255),
{
    let sum: u16 = a as u16 + b as u16;
    let h = a % 16 + b % 16 > 15;
    ((sum % 256) as u8, h, sum > 255)
}

/// Difference of two bytes with the half-borrow and the borrow.
pub fn half_overflowing_sub8(a: u8, b: u8) -> (r: (u8, bool, bool))
    ensures
        r.0 == (a - b + 256) % 256,
        r.1 == half_borrow_sub8(a, b),
        r.2 == (a < b),
{
    let diff: u16 = (a as u16 + 256) - b as u16;
    ((diff % 256) as u8, a % 16 < b % 16, a < b)
}

/// Sum of two words with the carry out of bit 11 and out of bit 15.
pub fn half_overflowing_add16(a: u16, b: u16) -> (r: (u16, bool, bool))
    ensures
        r.0 == (a + b) % 65536,
        r.1 == half_carry_add16(a, b),
        r.2 == (a + b > 65535),
{
    let sum: u32 = a as u32 + b as u32;
    ((sum % 65536) as u16, a % 4096 + b % 4096 > 4095, sum > 65535)
}

/// Difference of two words with the borrow into bit 11 and the borrow.
pub fn half_overflowing_sub16(a: u16, b: u16) -> (r: (u16, bool, bool))
    ensures
        r.0 == (a - b + 65536) % 65536,
        r.1 == half_borrow_sub16(a, b),
        r.2 == (a < b),
{
    let diff: u32 = (a as u32 + 65536) - b as u32;
    ((diff % 65536) as u16, a % 4096 < b % 4096, a < b)
}

/// The byte that a signed offset is read as by the flag logic.
pub open spec fn offset_byte(off: i8) -> int {
    if off < 0 { off + 256 } else { off as int }
}

/// A word plus a signed byte offset, wrapping. The flags come from adding
/// the offset's byte to the word's low byte, as unsigned bytes.
pub fn half_overflowing_add_signed16(a: u16, off: i8) -> (r: (u16, bool, bool))
    ensures
        r.0 == (a + off + 65536) % 65536,
        r.1 == (a % 16 + offset_byte(off) % 16 > 15),
        r.2 == (a % 256 + offset_byte(off) > 255),
{
    let ob: u16 = if off < 0 { (off as i16 + 256) as u16 } else { off as u16 };
    let sum: u32 = if off < 0 {
        a as u32 + 65536 - (256 - ob) as u32
    } else {
        a as u32 + ob as u32
    };
    let lo = (a % 256) as u8;
    let (_, h, c) = half_overflowing_add8(lo, ob as u8);
    assert(lo % 16 == a % 16);
    ((sum % 65536) as u16, h, c)
}

/// Add with carry: the flags are those of the three-way sum.
pub fn adc8(a: u8, b: u8, carry: bool) -> (r: (u8, bool, bool))
    ensures
        r.0 == (a + b + (if carry { 1int } else { 0 })) % 256,
        r.1 == (a % 16 + b % 16 + (if carry { 1int } else { 0 }) > 15),
        r.2 == (a + b + (if carry { 1int } else { 0 }) > 255),
{
    let (t, h1, c1) = half_overflowing_add8(a, if carry { 1 } else { 0 });
    let (s, h2, c2) = half_overflowing_add8(t, b);
    (s, h1 || h2, c1 || c2)
}

/// Subtract with borrow: the flags are those of `a - b - carry`.
pub fn sbc8(a: u8, b: u8, carry: bool) -> (r: (u8, bool, bool))
    ensures
        r.0 == (a - b - (if carry { 1int } else { 0 }) + 512) % 256,
        r.1 == (a % 16 < b % 16 + (if carry { 1int } else { 0 })),
        r.2 == (a < b + (if carry { 1int } else { 0 })),
{
    let (t, h1, c1) = half_overflowing_sub8(a, if carry { 1 } else { 0 });
    let (s, h2, c2) = half_overflowing_sub8(t, b);
    (s, h1 || h2, c1 || c2)
}

/// Rotate left; bit 7 goes to bit 0 and to the carry.
pub fn rlc8(v: u8) -> (r: (u8, bool))
    ensures
        r.0 == (v % 128) * 2 + v / 128,
        r.1 == (v >= 128),
{
    ((v % 128) * 2 + v / 128, v >= 128)
}

/// Rotate right; bit 0 goes to bit 7 and to the carry.
pub fn rrc8(v: u8) -> (r: (u8, bool))
    ensures
        r.0 == v / 2 + (v % 2) * 128,
        r.1 == (v % 2 == 1),
{
    (v / 2 + (v % 2) * 128, v % 2 == 1)
}

/// Rotate left through the carry.
pub fn rl8(v: u8, carry: bool) -> (r: (u8, bool))
    ensures
        r.0 == (v % 128) * 2 + (if carry { 1int } else { 0 }),
        r.1 == (v >= 128),
{
    ((v % 128) * 2 + if carry { 1 } else { 0 }, v >= 128)
}

/// Rotate right through the carry.
pub fn rr8(v: u8, carry: bool) -> (r: (u8, bool))
    ensures
        r.0 == v / 2 + (if carry { 128int } else { 0 }),
        r.1 == (v % 2 == 1),
{
    (v / 2 + if carry { 128 } else { 0 }, v % 2 == 1)
}

/// Arithmetic shift left.
pub fn sla8(v: u8) -> (r: (u8, bool))
    ensures
        r.0 == (v % 128) * 2,
        r.1 == (v >= 128),
{
    ((v % 128) * 2, v >= 128)
}

/// Arithmetic shift right: bit 7 is kept.
pub fn sra8(v: u8) -> (r: (u8, bool))
    ensures
        r.0 == v / 2 + (v / 128) * 128,
        r.1 == (v % 2 == 1),
{
    (v / 2 + (v / 128) * 128, v % 2 == 1)
}

/// Logical shift right.
pub fn srl8(v: u8) -> (r: (u8, bool))
    ensures
        r.0 == v / 2,
        r.1 == (v % 2 == 1),
{
    (v / 2, v % 2 == 1)
}

/// Exchange the two nibbles.
pub fn swap8(v: u8) -> (r: u8)
    ensures
        r == (v % 16) * 16 + v / 16,
{
    (v % 16) * 16 + v / 16
}

/// Decimal adjustment after an addition (`subtract` false) or a subtraction.
/// Returns the adjusted value and the new carry.
pub open spec fn daa_spec(a: u8, subtract: bool, half: bool, carry: bool) -> (u8, bool) {
    if !subtract {
        let c2 = carry || a > 0x99;
        let v1: int = if c2 { (a + 0x60) % 256 } else { a as int };
        let v2: int = if half || v1 % 16 > 9 { (v1 + 0x06) % 256 } else { v1 };
        (v2 as u8, c2)
    } else {
        let v1: int = if carry { (a - 0x60 + 256) % 256 } else { a as int };
        let v2: int = if half { (v1 - 0x06 + 256) % 256 } else { v1 };
        (v2 as u8, carry)
    }
}

pub fn daa8(a: u8, subtract: bool, half: bool, carry: bool) -> (r: (u8, bool))
    ensures
        r == daa_spec(a, subtract, half, carry),
{
    let mut val = a;
    let mut c = carry;
    if !subtract {
        if carry || val > 0x99 {
            c = true;
            val = val.wrapping_add(0x60);
        }
        if half || (val % 16) > 9 {
            val = val.wrapping_add(0x06);
        }
    } else {
        if carry {
            val = val.wrapping_sub(0x60);
        }
        if half {
            val = val.wrapping_sub(0x06);
        }
    }
    (val, c)
}

} // verus!
