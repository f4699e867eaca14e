use vstd::prelude::*;
use crate::cpu_6505::{FLAG_CARRY, FLAG_DECIMAL, FLAG_NEGATIVE, FLAG_OVERFLOW, FLAG_ZERO};

verus! {

/// Whether status bit `f` is set in `sr`.
pub open spec fn flag(sr: u8, f: u8) -> bool {
    sr & f != 0
}

/// `sr` with the bits of `f` set or cleared.
pub open spec fn with_flag(sr: u8, f: u8, on: bool) -> u8 {
    if on {
        sr | f
    } else {
        sr & !f
    }
}

/// `sr` with Z and N describing the result byte `v`.
pub open spec fn with_nz(sr: u8, v: u8) -> u8 {
    with_flag(with_flag(sr, FLAG_ZERO, v == 0), FLAG_NEGATIVE, v & 0x80 != 0)
}

/// The carry bit of `sr` as a number.
pub open spec fn carry_in(sr: u8) -> u8 {
    if flag(sr, FLAG_CARRY) {
        1
    } else {
        0
    }
}

/// Binary addition with carry: the result byte and the new status.
pub open spec fn bin_add(a: u8, b: u8, sr: u8) -> (u8, u8) {
    let c = a as int + b as int + carry_in(sr) as int;
    let r = (if c > 255 { c - 256 } else { c }) as u8;
    let v = (a & 0x80) == (b & 0x80) && (r & 0x80) != (a & 0x80);
    (r, with_nz(with_flag(with_flag(sr, FLAG_CARRY, c > 255), FLAG_OVERFLOW, v), r))
}

/// Decimal addition with carry, nibble by nibble with the 6502's adjustments.
#[verifier::opaque]
pub open spec fn bcd_add(a: u8, b: u8, sr: u8) -> (u8, u8) {
    let lo0 = (a & 0x0F) as int + (b & 0x0F) as int + carry_in(sr) as int;
    let hi0 = (a & 0xF0) as int + (b & 0xF0) as int;
    let lo = if lo0 > 9 { lo0 + 6 } else { lo0 };
    let hi1 = if lo0 > 9 { hi0 + 0x10 } else { hi0 };
    let v = (a & 0x80) == (b & 0x80) && (a & 0x80) != ((hi1 % 256) as u8 & 0x80);
    let hi = if hi1 > 0x90 { hi1 + 96 } else { hi1 };
    let r = ((lo % 16) + ((hi % 256) / 16) * 16) as u8;
    (r, with_nz(with_flag(with_flag(sr, FLAG_CARRY, hi > 255), FLAG_OVERFLOW, v), r))
}

/// Decimal subtraction with borrow (carry clear means borrow).
#[verifier::opaque]
pub open spec fn bcd_sub(a: u8, b: u8, sr: u8) -> (u8, u8) {
    let borrow = 1 - carry_in(sr) as int;
    let diff = a as int - b as int - borrow;
    let lo0 = (a & 0x0F) as int - (b & 0x0F) as int - borrow;
    let hi0 = (a & 0xF0) as int - (b & 0xF0) as int;
    let lo = if lo0 < 0 { lo0 - 6 } else { lo0 };
    let hi1 = if lo0 < 0 { hi0 - 1 } else { hi0 };
    let hi = if hi1 < 0 { hi1 - 0x60 } else { hi1 };
    let r = (((lo + 256) % 16) + (((hi + 512) % 256) / 16) * 16) as u8;
    let dlow = (if diff < 0 { diff + 256 } else { diff }) as u8;
    let v = ((a ^ b) & (a ^ dlow) & 0x80) != 0;
    (r, with_nz(with_flag(with_flag(sr, FLAG_CARRY, diff >= 0), FLAG_OVERFLOW, v), r))
}

/// ADC: binary or decimal according to the D flag.
pub open spec fn adc_spec(a: u8, b: u8, sr: u8) -> (u8, u8) {
    if flag(sr, FLAG_DECIMAL) {
        bcd_add(a, b, sr)
    } else {
        bin_add(a, b, sr)
    }
}

/// SBC: binary (addition of the complement) or decimal according to the D flag.
pub open spec fn sbc_spec(a: u8, b: u8, sr: u8) -> (u8, u8) {
    if flag(sr, FLAG_DECIMAL) {
        bcd_sub(a, b, sr)
    } else {
        bin_add(a, !b, sr)
    }
}

/// CMP, CPX, CPY: the status after comparing a register with an operand.
pub open spec fn compare_spec(reg: u8, operand: u8, sr: u8) -> u8 {
    let d = if reg >= operand { reg - operand } else { reg + 256 - operand };
    with_flag(with_nz(sr, d as u8), FLAG_CARRY, reg >= operand)
}

/// The decimal value of a byte that holds two BCD digits.
pub open spec fn bcd_value(v: u8) -> int {
    (v / 16) as int * 10 + (v % 16) as int
}

/// A byte holds two BCD digits.
pub open spec fn is_bcd(v: u8) -> bool {
    v / 16 <= 9 && v % 16 <= 9
}

proof fn lemma_nibbles(v: u8)
    ensures
        v & 0x0F == v % 16,
        v & 0xF0 == v / 16 * 16,
        (v & 0x80 != 0) == (v >= 128),
{
    assert(v & 0x0F == v % 16) by (bit_vector);
    assert(v & 0xF0 == v / 16 * 16) by (bit_vector);
    assert((v & 0x80 != 0) == (v >= 128)) by (bit_vector);
}

/// Setting Z and N, or the overflow bit, leaves the carry bit alone; setting the
/// carry bit sets it as asked.
proof fn lemma_carry_bit(sr: u8, on: bool, v: bool, r: u8)
    ensures
        flag(with_nz(with_flag(with_flag(sr, FLAG_CARRY, on), FLAG_OVERFLOW, v), r), FLAG_CARRY) == on,
{
    let x = with_flag(sr, FLAG_CARRY, on);
    if on {
        assert((sr | 1u8) & 1 != 0) by (bit_vector);
    } else {
        assert((sr & !1u8) & 1 == 0) by (bit_vector);
    }
    let s0 = with_flag(x, FLAG_OVERFLOW, v);
    if v {
        assert((x | 64u8) & 1 == x & 1) by (bit_vector);
    } else {
        assert((x & !64u8) & 1 == x & 1) by (bit_vector);
    }
    let y = with_flag(s0, FLAG_ZERO, r == 0);
    if r == 0 {
        assert((s0 | 2u8) & 1 == s0 & 1) by (bit_vector);
    } else {
        assert((s0 & !2u8) & 1 == s0 & 1) by (bit_vector);
    }
    if r & 0x80 != 0 {
        assert((y | 128u8) & 1 == y & 1) by (bit_vector);
    } else {
        assert((y & !128u8) & 1 == y & 1) by (bit_vector);
    }
}

/// The digit arithmetic behind decimal addition.
proof fn lemma_bcd_digits(al: int, ah: int, bl: int, bh: int, c: int)
    requires
        0 <= al <= 9,
        0 <= ah <= 9,
        0 <= bl <= 9,
        0 <= bh <= 9,
        0 <= c <= 1,
    ensures
        ({
            let lo0 = al + bl + c;
            let hi0 = ah * 16 + bh * 16;
            let lo = if lo0 > 9 { lo0 + 6 } else { lo0 };
            let hi1 = if lo0 > 9 { hi0 + 0x10 } else { hi0 };
            let hi = if hi1 > 0x90 { hi1 + 96 } else { hi1 };
            let s = ah * 10 + al + bh * 10 + bl + c;
            &&& lo % 16 == s % 10
            &&& (hi % 256) / 16 == (s % 100) / 10
            &&& (hi > 255) == (s >= 100)
        }),
{
    let lo0 = al + bl + c;
    let d = if lo0 > 9 { lo0 - 10 } else { lo0 };
    let k = if lo0 > 9 { ah + bh + 1 } else { ah + bh };
    let s = ah * 10 + al + bh * 10 + bl + c;
    if lo0 > 9 {
        vstd::arithmetic::div_mod::lemma_fundamental_div_mod_converse(lo0 + 6, 16, 1, d);
    } else {
        vstd::arithmetic::div_mod::lemma_fundamental_div_mod_converse(lo0, 16, 0, d);
    }
    assert(s == k * 10 + d);
    if k >= 10 {
        vstd::arithmetic::div_mod::lemma_fundamental_div_mod_converse(s, 100, 1, (k - 10) * 10 + d);
        vstd::arithmetic::div_mod::lemma_fundamental_div_mod_converse((k - 10) * 10 + d, 10, k - 10, d);
        vstd::arithmetic::div_mod::lemma_fundamental_div_mod_converse(k * 16 + 96, 256, 1, (k - 10) * 16);
        vstd::arithmetic::div_mod::lemma_fundamental_div_mod_converse((k - 10) * 16, 16, k - 10, 0);
    } else {
        vstd::arithmetic::div_mod::lemma_fundamental_div_mod_converse(s, 100, 0, s);
        vstd::arithmetic::div_mod::lemma_fundamental_div_mod_converse(s, 10, k, d);
        vstd::arithmetic::div_mod::lemma_fundamental_div_mod_converse(k * 16, 256, 0, k * 16);
        vstd::arithmetic::div_mod::lemma_fundamental_div_mod_converse(k * 16, 16, k, 0);
    }
}

/// Decimal addition of two BCD bytes gives the BCD digits of the sum modulo 100,
/// with the carry set exactly when the sum reaches 100.
pub proof fn lemma_bcd_add(a: u8, b: u8, sr: u8)
    requires
        is_bcd(a),
        is_bcd(b),
    ensures
        bcd_value(bcd_add(a, b, sr).0) == (bcd_value(a) + bcd_value(b) + carry_in(sr)) % 100,
        is_bcd(bcd_add(a, b, sr).0),
        flag(bcd_add(a, b, sr).1, FLAG_CARRY) == (bcd_value(a) + bcd_value(b) + carry_in(sr) >= 100),
{
    lemma_nibbles(a);
    lemma_nibbles(b);
    let c = carry_in(sr);
    let al = (a % 16) as int;
    let ah = (a / 16) as int;
    let bl = (b % 16) as int;
    let bh = (b / 16) as int;
    let lo0 = al + bl + c as int;
    let hi0 = ah * 16 + bh * 16;
    assert(lo0 == (a & 0x0F) as int + (b & 0x0F) as int + c as int);
    assert(hi0 == (a & 0xF0) as int + (b & 0xF0) as int);
    let lo = if lo0 > 9 { lo0 + 6 } else { lo0 };
    let hi1 = if lo0 > 9 { hi0 + 0x10 } else { hi0 };
    let hi = if hi1 > 0x90 { hi1 + 96 } else { hi1 };
    let r = ((lo % 16) + ((hi % 256) / 16) * 16) as u8;
    let v = (a & 0x80) == (b & 0x80) && (a & 0x80) != ((hi1 % 256) as u8 & 0x80);
    let sr2 = with_nz(with_flag(with_flag(sr, FLAG_CARRY, hi > 255), FLAG_OVERFLOW, v), r);
    assert(bcd_add(a, b, sr) == (r, sr2)) by {
        reveal(bcd_add);
    }
    lemma_bcd_digits(al, ah, bl, bh, c as int);
    lemma_carry_bit(sr, hi > 255, v, r);
    let s = ah * 10 + al + bh * 10 + bl + c as int;
    assert(s == bcd_value(a) + bcd_value(b) + carry_in(sr));
    let e = s % 100;
    let q = e / 10;
    let d = e % 10;
    assert(0 <= e < 100 && s % 10 == d) by {
        vstd::arithmetic::div_mod::lemma_fundamental_div_mod(s, 100);
        vstd::arithmetic::div_mod::lemma_fundamental_div_mod(s, 10);
        vstd::arithmetic::div_mod::lemma_fundamental_div_mod(e, 10);
        vstd::arithmetic::div_mod::lemma_fundamental_div_mod_converse(s, 10, (s / 100) * 10 + q, d);
    }
    assert(0 <= q <= 9 && 0 <= d <= 9 && q * 10 + d == e) by {
        vstd::arithmetic::div_mod::lemma_fundamental_div_mod(e, 10);
    }
    assert(r as int == d + q * 16);
    vstd::arithmetic::div_mod::lemma_fundamental_div_mod_converse(r as int, 16, q, d);
}

/// The digit arithmetic behind decimal subtraction.
proof fn lemma_bcd_sub_digits(al: int, ah: int, bl: int, bh: int, br: int)
    requires
        0 <= al <= 9,
        0 <= ah <= 9,
        0 <= bl <= 9,
        0 <= bh <= 9,
        0 <= br <= 1,
    ensures
        ({
            let lo0 = al - bl - br;
            let hi0 = ah * 16 - bh * 16;
            let lo = if lo0 < 0 { lo0 - 6 } else { lo0 };
            let hi1 = if lo0 < 0 { hi0 - 1 } else { hi0 };
            let hi = if hi1 < 0 { hi1 - 0x60 } else { hi1 };
            let d = ah * 10 + al - bh * 10 - bl - br;
            let e = if d < 0 { d + 100 } else { d };
            &&& (lo + 256) % 16 == e % 10
            &&& ((hi + 512) % 256) / 16 == e / 10
            &&& 0 <= e < 100
            &&& (ah * 16 + al - bh * 16 - bl - br >= 0) == (d >= 0)
        }),
{
    let lo0 = al - bl - br;
    let k = ah - bh;
    let d = ah * 10 + al - bh * 10 - bl - br;
    let e = if d < 0 { d + 100 } else { d };
    let dl = if lo0 < 0 { lo0 + 10 } else { lo0 };
    let q = if lo0 < 0 { k - 1 } else { k };
    let qe = if q < 0 { q + 10 } else { q };
    assert(e == qe * 10 + dl);
    vstd::arithmetic::div_mod::lemma_fundamental_div_mod_converse(e, 10, qe, dl);
    if lo0 < 0 {
        vstd::arithmetic::div_mod::lemma_fundamental_div_mod_converse(lo0 - 6 + 256, 16, 15, dl);
        if k <= 0 {
            vstd::arithmetic::div_mod::lemma_fundamental_div_mod_converse(k * 16 - 97 + 512, 256, 1, (k + 9) * 16 + 15);
            vstd::arithmetic::div_mod::lemma_fundamental_div_mod_converse((k + 9) * 16 + 15, 16, k + 9, 15);
        } else {
            vstd::arithmetic::div_mod::lemma_fundamental_div_mod_converse(k * 16 - 1 + 512, 256, 2, (k - 1) * 16 + 15);
            vstd::arithmetic::div_mod::lemma_fundamental_div_mod_converse((k - 1) * 16 + 15, 16, k - 1, 15);
        }
    } else {
        vstd::arithmetic::div_mod::lemma_fundamental_div_mod_converse(lo0 + 256, 16, 16, lo0);
        if k < 0 {
            vstd::arithmetic::div_mod::lemma_fundamental_div_mod_converse(k * 16 - 96 + 512, 256, 1, (k + 10) * 16);
            vstd::arithmetic::div_mod::lemma_fundamental_div_mod_converse((k + 10) * 16, 16, k + 10, 0);
        } else {
            vstd::arithmetic::div_mod::lemma_fundamental_div_mod_converse(k * 16 + 512, 256, 2, k * 16);
            vstd::arithmetic::div_mod::lemma_fundamental_div_mod_converse(k * 16, 16, k, 0);
        }
    }
}

/// Decimal subtraction of two BCD bytes gives the BCD digits of the
/// difference (less the borrow) modulo 100, with the carry set exactly when
/// the difference is not negative.
pub proof fn lemma_bcd_sub(a: u8, b: u8, sr: u8)
    requires
        is_bcd(a),
        is_bcd(b),
    ensures
        bcd_value(bcd_sub(a, b, sr).0) == (bcd_value(a) - bcd_value(b) - (1 - carry_in(sr)) + 100) % 100,
        is_bcd(bcd_sub(a, b, sr).0),
        flag(bcd_sub(a, b, sr).1, FLAG_CARRY) == (bcd_value(a) - bcd_value(b) - (1 - carry_in(sr)) >= 0),
{
    lemma_nibbles(a);
    lemma_nibbles(b);
    let br = 1 - carry_in(sr) as int;
    let al = (a % 16) as int;
    let ah = (a / 16) as int;
    let bl = (b % 16) as int;
    let bh = (b / 16) as int;
    let diff = a as int - b as int - br;
    let lo0 = al - bl - br;
    let hi0 = ah * 16 - bh * 16;
    assert(lo0 == (a & 0x0F) as int - (b & 0x0F) as int - br);
    assert(hi0 == (a & 0xF0) as int - (b & 0xF0) as int);
    assert(diff == ah * 16 + al - bh * 16 - bl - br);
    let lo = if lo0 < 0 { lo0 - 6 } else { lo0 };
    let hi1 = if lo0 < 0 { hi0 - 1 } else { hi0 };
    let hi = if hi1 < 0 { hi1 - 0x60 } else { hi1 };
    let r = (((lo + 256) % 16) + (((hi + 512) % 256) / 16) * 16) as u8;
    let dlow = (if diff < 0 { diff + 256 } else { diff }) as u8;
    let v = ((a ^ b) & (a ^ dlow) & 0x80) != 0;
    let sr2 = with_nz(with_flag(with_flag(sr, FLAG_CARRY, diff >= 0), FLAG_OVERFLOW, v), r);
    assert(bcd_sub(a, b, sr) == (r, sr2)) by {
        reveal(bcd_sub);
    }
    lemma_bcd_sub_digits(al, ah, bl, bh, br);
    lemma_carry_bit(sr, diff >= 0, v, r);
    let d = ah * 10 + al - bh * 10 - bl - br;
    assert(d == bcd_value(a) - bcd_value(b) - br);
    let e = if d < 0 { d + 100 } else { d };
    assert(e == (d + 100) % 100) by {
        if d < 0 {
            vstd::arithmetic::div_mod::lemma_fundamental_div_mod_converse(d + 100, 100, 0, e);
        } else {
            vstd::arithmetic::div_mod::lemma_fundamental_div_mod_converse(d + 100, 100, 1, e);
        }
    }
    let q = e / 10;
    let dd = e % 10;
    assert(0 <= q <= 9 && 0 <= dd <= 9 && q * 10 + dd == e) by {
        vstd::arithmetic::div_mod::lemma_fundamental_div_mod(e, 10);
    }
    assert(r as int == dd + q * 16);
    vstd::arithmetic::div_mod::lemma_fundamental_div_mod_converse(r as int, 16, q, dd);
}

} // verus!
