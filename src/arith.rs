use vstd::prelude::*;
use crate::alu;
use crate::cpu_6505::{FLAG_CARRY, FLAG_NEGATIVE, FLAG_OVERFLOW, FLAG_ZERO};

verus! {

fn set_flag(sr: u8, f: u8, on: bool) -> (r: u8)
    ensures
        r == alu::with_flag(sr, f, on),
{
    if on {
        sr | f
    } else {
        sr & !f
    }
}

fn set_nz(sr: u8, v: u8) -> (r: u8)
    ensures
        r == alu::with_nz(sr, v),
{
    set_flag(set_flag(sr, FLAG_ZERO, v == 0), FLAG_NEGATIVE, v & 0x80 != 0)
}

/// Decimal addition with carry: the result byte and the new status.
pub fn add_decimal(a: u8, b: u8, sr: u8) -> (r: (u8, u8))
    ensures
        r == alu::bcd_add(a, b, sr),
{
    let c: u8 = if sr & FLAG_CARRY != 0 { 1 } else { 0 };
    assert(a & 0x0F <= 15 && b & 0x0F <= 15 && a & 0xF0 <= 0xF0 && b & 0xF0 <= 0xF0) by (bit_vector);
    let lo0: u8 = (a & 0x0F) + (b & 0x0F) + c;
    let mut lo: u8 = lo0;
    let mut hi: u16 = (a & 0xF0) as u16 + (b & 0xF0) as u16;
    if lo0 > 9 {
        lo = lo0 + 6;
        hi = hi + 0x10;
    }
    let hb: u8 = if hi > 255 { (hi - 256) as u8 } else { hi as u8 };
    let v = (a & 0x80) == (b & 0x80) && (a & 0x80) != (hb & 0x80);
    if hi > 0x90 {
        hi = hi + 96;
    }
    let hm: u16 = hi % 256;
    assert((hm / 16) * 16 <= 240) by (nonlinear_arith)
        requires hm < 256;
    let r: u8 = (lo % 16) + ((hm / 16) * 16) as u8;
    let s = set_nz(set_flag(set_flag(sr, FLAG_CARRY, hi > 255), FLAG_OVERFLOW, v), r);
    proof {
        reveal(alu::bcd_add);
    }
    (r, s)
}

/// Decimal subtraction with borrow: the result byte and the new status.
pub fn sub_decimal(a: u8, b: u8, sr: u8) -> (r: (u8, u8))
    ensures
        r == alu::bcd_sub(a, b, sr),
{
    let borrow: i16 = if sr & FLAG_CARRY != 0 { 0 } else { 1 };
    assert(a & 0x0F <= 15 && b & 0x0F <= 15 && a & 0xF0 <= 0xF0 && b & 0xF0 <= 0xF0) by (bit_vector);
    let diff: i16 = a as i16 - b as i16 - borrow;
    let lo0: i16 = (a & 0x0F) as i16 - (b & 0x0F) as i16 - borrow;
    let hi0: i16 = (a & 0xF0) as i16 - (b & 0xF0) as i16;
    let mut lo: i16 = lo0;
    let mut hi: i16 = hi0;
    if lo0 < 0 {
        lo = lo0 - 6;
        hi = hi0 - 1;
    }
    if hi < 0 {
        hi = hi - 0x60;
    }
    let hm: i16 = (hi + 512) % 256;
    assert((hm / 16) * 16 <= 240) by (nonlinear_arith)
        requires 0 <= hm < 256;
    let r: u8 = (((lo + 256) % 16) + (hm / 16) * 16) as u8;
    let dlow: u8 = if diff < 0 { (diff + 256) as u8 } else { diff as u8 };
    let s = set_nz(set_flag(set_flag(sr, FLAG_CARRY, diff >= 0), FLAG_OVERFLOW, ((a ^ b) & (a ^ dlow) & 0x80) != 0), r);
    proof {
        reveal(alu::bcd_sub);
    }
    (r, s)
}

} // verus!
