//! Two's-complement arithmetic on machine words, stated over the integers.
//!
//! The functions here are the only place where a cast changes the meaning of
//! a value; everything else in the crate reasons about the integers they name.
use vstd::arithmetic::div_mod::lemma_mod_multiples_vanish;
use vstd::prelude::*;

verus! {

/// The value of `i` modulo 2^64, as a register holds it.
pub open spec fn wrap64(i: int) -> u64 {
    (i % 0x1_0000_0000_0000_0000) as u64
}

/// The value of `i` modulo 2^32.
pub open spec fn wrap32(i: int) -> u32 {
    (i % 0x1_0000_0000) as u32
}

/// The integer that the 64-bit pattern `x` stands for in two's complement.
pub open spec fn signed64(x: u64) -> int {
    if x < 0x8000_0000_0000_0000 {
        x as int
    } else {
        x as int - 0x1_0000_0000_0000_0000
    }
}

/// The integer that the 32-bit pattern `x` stands for in two's complement.
pub open spec fn signed32(x: u32) -> int {
    if x < 0x8000_0000 {
        x as int
    } else {
        x as int - 0x1_0000_0000
    }
}

/// The integer that the 16-bit pattern `x` stands for in two's complement.
pub open spec fn signed16(x: u16) -> int {
    if x < 0x8000 {
        x as int
    } else {
        x as int - 0x1_0000
    }
}

/// The integer that the 8-bit pattern `x` stands for in two's complement.
pub open spec fn signed8(x: u8) -> int {
    if x < 0x80 {
        x as int
    } else {
        x as int - 0x100
    }
}

/// A 32-bit result widened to a register: sign extension from bit 31.
pub open spec fn sext32(x: u32) -> u64 {
    wrap64(signed32(x))
}

/// Quotient rounded toward zero, as the hardware divider produces it.
pub open spec fn div_trunc(x: int, d: int) -> int
    recommends
        d != 0,
{
    if x >= 0 && d > 0 {
        x / d
    } else if x < 0 && d < 0 {
        (-x) / (-d)
    } else if x < 0 {
        -((-x) / d)
    } else {
        -(x / (-d))
    }
}

/// Remainder of the division rounded toward zero: it has the sign of the
/// dividend and a magnitude below that of the divisor.
pub open spec fn rem_trunc(x: int, d: int) -> int
    recommends
        d != 0,
{
    let m = if d < 0 { -d } else { d };
    if x >= 0 {
        x % m
    } else {
        -((-x) % m)
    }
}

proof fn lemma_casts(x: u64, y: i64, w: u32, i: i32)
    by (bit_vector)
    ensures
        (x as i64) as int == (if x < 0x8000_0000_0000_0000u64 {
            x as int
        } else {
            x as int - 0x1_0000_0000_0000_0000
        }),
        (y as u64) as int == (if y >= 0 {
            y as int
        } else {
            y as int + 0x1_0000_0000_0000_0000
        }),
        (x as u32) as int == x as int % 0x1_0000_0000,
        (w as i32) as int == (if w < 0x8000_0000u32 {
            w as int
        } else {
            w as int - 0x1_0000_0000
        }),
        (i as u32) as int == (if i >= 0 {
            i as int
        } else {
            i as int + 0x1_0000_0000
        }),
        (i as i64) as int == i as int,
        (w as u64) as int == w as int,
{
}

/// Reads a register as a signed integer.
pub fn to_i64(x: u64) -> (r: i64)
    ensures
        r as int == signed64(x),
{
    proof {
        lemma_casts(x, 0, 0, 0);
    }
    x as i64
}

/// Stores a signed integer in a register.
pub fn from_i64(y: i64) -> (r: u64)
    ensures
        r == wrap64(y as int),
        signed64(r) == y,
{
    proof {
        lemma_casts(0, y, 0, 0);
    }
    y as u64
}

/// The low 32 bits of a register.
pub fn low32(x: u64) -> (r: u32)
    ensures
        r == wrap32(x as int),
{
    proof {
        lemma_casts(x, 0, 0, 0);
    }
    x as u32
}

/// Reads a 32-bit word as a signed integer.
pub fn to_i32(w: u32) -> (r: i32)
    ensures
        r as int == signed32(w),
{
    proof {
        lemma_casts(0, 0, w, 0);
    }
    w as i32
}

/// Stores a signed 32-bit integer in a 32-bit word.
pub fn from_i32(i: i32) -> (r: u32)
    ensures
        r == wrap32(i as int),
        signed32(r) == i,
{
    proof {
        lemma_casts(0, 0, 0, i);
    }
    i as u32
}

/// Widens a 32-bit result to a register by sign extension from bit 31.
pub fn sign_extend_word(w: u32) -> (r: u64)
    ensures
        r == sext32(w),
{
    let i = to_i32(w);
    proof {
        lemma_casts(0, i as i64, 0, i);
    }
    from_i64(i as i64)
}

/// Widens a decoded immediate to a register by sign extension.
pub fn imm_to_u64(imm: i32) -> (r: u64)
    ensures
        r == wrap64(imm as int),
{
    proof {
        lemma_casts(0, 0, 0, imm);
    }
    from_i64(imm as i64)
}

/// Reducing a number modulo 2^64 changes neither its low doubleword nor
/// its low word, also where it is one summand of a sum.
pub proof fn lemma_wrap_absorbs(x: int, i: int)
    ensures
        wrap64(x + wrap64(i)) == wrap64(x + i),
        wrap32(x + wrap64(i)) == wrap32(x + i),
        wrap32(wrap64(i) as int) == wrap32(i),
{
    let q = i / 0x1_0000_0000_0000_0000;
    assert(wrap64(i) as int == i - 0x1_0000_0000_0000_0000 * q);
    lemma_mod_multiples_vanish(-q, x + i, 0x1_0000_0000_0000_0000);
    assert(0x1_0000_0000_0000_0000 * (-q) + (x + i) == x + wrap64(i));
    lemma_mod_multiples_vanish(-q * 0x1_0000_0000, x + i, 0x1_0000_0000);
    assert(0x1_0000_0000 * (-q * 0x1_0000_0000) + (x + i) == x + wrap64(i));
    lemma_mod_multiples_vanish(-q * 0x1_0000_0000, i, 0x1_0000_0000);
    assert(0x1_0000_0000 * (-q * 0x1_0000_0000) + i == wrap64(i));
}

/// A register plus a sign-extended immediate, modulo 2^64.
pub fn add_imm(a: u64, imm: i32) -> (r: u64)
    ensures
        r == wrap64(a + imm),
{
    proof {
        lemma_wrap_absorbs(a as int, imm as int);
    }
    a.wrapping_add(imm_to_u64(imm))
}

/// A register plus a sign-extended immediate on the low word,
/// sign-extended.
pub fn add_imm_word(a: u64, imm: i32) -> (r: u64)
    ensures
        r == sext32(wrap32(a + imm)),
{
    proof {
        lemma_wrap_absorbs(a as int, imm as int);
    }
    add_word(a, imm_to_u64(imm))
}

/// The sum of two registers, modulo 2^64.
pub fn add64(a: u64, b: u64) -> (r: u64)
    ensures
        r == wrap64(a + b),
{
    a.wrapping_add(b)
}

/// The difference of two registers, modulo 2^64.
pub fn sub64(a: u64, b: u64) -> (r: u64)
    ensures
        r == wrap64(a - b),
{
    a.wrapping_sub(b)
}

/// The product of two registers, modulo 2^64.
pub fn mul64(a: u64, b: u64) -> (r: u64)
    ensures
        r == wrap64(a * b),
{
    a.wrapping_mul(b)
}

/// The sum of two registers on the low word, sign-extended.
pub fn add_word(a: u64, b: u64) -> (r: u64)
    ensures
        r == sext32(wrap32(a + b)),
{
    proof {
        lemma_wrap_absorbs(0, a + b);
    }
    sign_extend_word(low32(a.wrapping_add(b)))
}

/// The difference of two registers on the low word, sign-extended.
pub fn sub_word(a: u64, b: u64) -> (r: u64)
    ensures
        r == sext32(wrap32(a - b)),
{
    proof {
        lemma_wrap_absorbs(0, a - b);
    }
    sign_extend_word(low32(a.wrapping_sub(b)))
}

/// The product of two registers on the low word, sign-extended.
pub fn mul_word(a: u64, b: u64) -> (r: u64)
    ensures
        r == sext32(wrap32(a * b)),
{
    proof {
        lemma_wrap_absorbs(0, a * b);
    }
    sign_extend_word(low32(a.wrapping_mul(b)))
}

proof fn lemma_quotient_bounds(n: int, m: int)
    by (nonlinear_arith)
    requires
        n >= 0,
        m > 0,
    ensures
        0 <= n / m <= n,
        0 <= n % m < m,
        n == 0 ==> n % m == 0,
        m >= 2 && n > 0 ==> n / m < n,
{
}

/// Signed division by a nonzero divisor that does not overflow.
pub fn div_i64(a: i64, b: i64) -> (r: i64)
    requires
        b != 0,
        !(a == i64::MIN && b == -1),
    ensures
        r == div_trunc(a as int, b as int),
{
    proof {
        let n: int = if a >= 0 { a as int } else { -(a as int) };
        let m: int = if b >= 0 { b as int } else { -(b as int) };
        lemma_quotient_bounds(n, m);
    }
    match a.checked_div(b) {
        Some(q) => q,
        None => 0,
    }
}

/// Signed remainder by a nonzero divisor that does not overflow.
pub fn rem_i64(a: i64, b: i64) -> (r: i64)
    requires
        b != 0,
        !(a == i64::MIN && b == -1),
    ensures
        r == rem_trunc(a as int, b as int),
{
    proof {
        let n: int = if a >= 0 { a as int } else { -(a as int) };
        let m: int = if b >= 0 { b as int } else { -(b as int) };
        lemma_quotient_bounds(n, m);
    }
    match a.checked_rem(b) {
        Some(q) => q,
        None => 0,
    }
}

} // verus!
