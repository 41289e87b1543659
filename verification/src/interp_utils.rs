//! Numeric helpers of the execution functions: the upper half of a 128-bit
//! product, sign injection and floating-point classification.
//!
//! Floating-point values appear here as their bit patterns.
use crate::arith::{from_i64, to_i64};
use vstd::prelude::*;

verus! {

/// The upper 64 bits of the 128-bit product of two unsigned operands.
pub open spec fn spec_mulhu(a: u64, b: u64) -> u64 {
    ((a as int * b as int) / 0x1_0000_0000_0000_0000) as u64
}

/// The upper 64 bits of the 128-bit product of two signed operands.
pub open spec fn spec_mulh(a: i64, b: i64) -> i64 {
    ((a as int * b as int) / 0x1_0000_0000_0000_0000) as i64
}

/// The upper 64 bits of the 128-bit product of a signed and an unsigned
/// operand.
pub open spec fn spec_mulhsu(a: i64, b: u64) -> i64 {
    ((a as int * b as int) / 0x1_0000_0000_0000_0000) as i64
}

proof fn lemma_half_product(x: int, y: int)
    by (nonlinear_arith)
    requires
        0 <= x < 0x1_0000_0000,
        0 <= y < 0x1_0000_0000,
    ensures
        0 <= x * y <= 0xffff_fffe_0000_0001,
{
}

proof fn lemma_product_split(a: int, b: int, a1: int, a0: int, b1: int, b0: int)
    by (nonlinear_arith)
    requires
        a == a1 * 0x1_0000_0000 + a0,
        b == b1 * 0x1_0000_0000 + b0,
    ensures
        a * b == (a1 * b1) * 0x1_0000_0000_0000_0000 + (a1 * b0 + a0 * b1) * 0x1_0000_0000 + a0
            * b0,
{
}

/// The upper 64 bits of `a * b`, by long multiplication on 32-bit halves.
pub fn mulhu(a: u64, b: u64) -> (r: u64)
    ensures
        r == spec_mulhu(a, b),
        r as int == (a as int * b as int) / 0x1_0000_0000_0000_0000,
{
    let a0: u64 = a % 0x1_0000_0000;
    let a1: u64 = a / 0x1_0000_0000;
    let b0: u64 = b % 0x1_0000_0000;
    let b1: u64 = b / 0x1_0000_0000;
    proof {
        lemma_half_product(a0 as int, b0 as int);
        lemma_half_product(a1 as int, b0 as int);
        lemma_half_product(a0 as int, b1 as int);
        lemma_half_product(a1 as int, b1 as int);
        lemma_product_split(a as int, b as int, a1 as int, a0 as int, b1 as int, b0 as int);
    }
    let low: u64 = a0 * b0;
    let mid: u64 = a1 * b0 + low / 0x1_0000_0000;
    let mid_low: u64 = mid % 0x1_0000_0000;
    let mid_high: u64 = mid / 0x1_0000_0000;
    let cross: u64 = a0 * b1 + mid_low;
    let r: u64 = a1 * b1 + mid_high + cross / 0x1_0000_0000;
    proof {
        let rest: int = (cross % 0x1_0000_0000) * 0x1_0000_0000 + low % 0x1_0000_0000;
        assert(a as int * b as int == (r as int) * 0x1_0000_0000_0000_0000 + rest);
        assert(0 <= rest < 0x1_0000_0000_0000_0000);
    }
    r
}

proof fn lemma_signed_product(au: int, bu: int, sa: int, sb: int)
    by (nonlinear_arith)
    requires
        0 <= au < 0x1_0000_0000_0000_0000,
        0 <= bu < 0x1_0000_0000_0000_0000,
        0 <= sa <= 1,
        0 <= sb <= 1,
    ensures
        (au - sa * 0x1_0000_0000_0000_0000) * (bu - sb * 0x1_0000_0000_0000_0000) == au * bu
            - 0x1_0000_0000_0000_0000 * (sa * bu + sb * au - sa * sb
            * 0x1_0000_0000_0000_0000),
        sa == 0 ==> sa * bu == 0 && sa * sb == 0,
        sa == 1 ==> sa * bu == bu && sa * sb == sb,
        sb == 0 ==> sb * au == 0,
        sb == 1 ==> sb * au == au,
        0 <= au * bu,
{
}

proof fn lemma_signed_product_range(a: int, b: int)
    by (nonlinear_arith)
    requires
        -0x8000_0000_0000_0000 <= a < 0x8000_0000_0000_0000,
        -0x8000_0000_0000_0000 <= b < 0x1_0000_0000_0000_0000,
    ensures
        -0x8000_0000_0000_0000 * 0x1_0000_0000_0000_0000 <= a * b,
        a * b < 0x8000_0000_0000_0000 * 0x1_0000_0000_0000_0000,
{
}

/// The upper 64 bits of the signed product `a * b`.
pub fn mulh(a: i64, b: i64) -> (r: i64)
    ensures
        r == spec_mulh(a, b),
        r as int == (a as int * b as int) / 0x1_0000_0000_0000_0000,
{
    let au: u64 = from_i64(a);
    let bu: u64 = from_i64(b);
    let high: u64 = mulhu(au, bu);
    let first: u64 = if a < 0 {
        bu
    } else {
        0
    };
    let second: u64 = if b < 0 {
        au
    } else {
        0
    };
    proof {
        let sa: int = if a < 0 { 1 } else { 0 };
        let sb: int = if b < 0 { 1 } else { 0 };
        lemma_signed_product(au as int, bu as int, sa, sb);
        lemma_signed_product_range(a as int, b as int);
        assert(a as int == au - sa * 0x1_0000_0000_0000_0000);
        assert(b as int == bu - sb * 0x1_0000_0000_0000_0000);
    }
    to_i64(high.wrapping_sub(first).wrapping_sub(second))
}

/// The upper 64 bits of the product of the signed `a` and the unsigned `b`.
pub fn mulhsu(a: i64, b: u64) -> (r: i64)
    ensures
        r == spec_mulhsu(a, b),
        r as int == (a as int * b as int) / 0x1_0000_0000_0000_0000,
{
    let au: u64 = from_i64(a);
    let high: u64 = mulhu(au, b);
    let first: u64 = if a < 0 {
        b
    } else {
        0
    };
    proof {
        let sa: int = if a < 0 { 1 } else { 0 };
        lemma_signed_product(au as int, b as int, sa, 0);
        lemma_signed_product_range(a as int, b as int);
        assert(a as int == au - sa * 0x1_0000_0000_0000_0000);
    }
    to_i64(high.wrapping_sub(first))
}

/// With the top bit of the unsigned operand clear, the mixed product has
/// the same upper half as the signed product.
pub proof fn lemma_mulhsu_agrees_with_mulh(a: i64, b: u64)
    requires
        b < 0x8000_0000_0000_0000,
    ensures
        spec_mulhsu(a, b) == spec_mulh(a, b as i64),
{
}

/// The sign bit of a single-precision pattern.
pub const F32_SIGN: u32 = 0x8000_0000;

/// The sign bit of a double-precision pattern.
pub const F64_SIGN: u64 = 0x8000_0000_0000_0000;

/// The sign that sign injection gives the result: that of `b`, its
/// opposite when `n`, or the two signs' difference when `x`.
pub open spec fn injected_sign(sign_a: bool, sign_b: bool, n: bool, x: bool) -> bool {
    if x {
        sign_a != sign_b
    } else if n {
        !sign_b
    } else {
        sign_b
    }
}

/// Sign injection on single-precision patterns: the magnitude of `a` under
/// the injected sign.
pub open spec fn spec_fsgnj32(a: u32, b: u32, n: bool, x: bool) -> u32 {
    let magnitude = a % 0x8000_0000;
    if injected_sign(a >= 0x8000_0000, b >= 0x8000_0000, n, x) {
        (magnitude + 0x8000_0000) as u32
    } else {
        magnitude
    }
}

/// Sign injection on double-precision patterns: the magnitude of `a` under
/// the injected sign.
pub open spec fn spec_fsgnj64(a: u64, b: u64, n: bool, x: bool) -> u64 {
    let magnitude = a % 0x8000_0000_0000_0000;
    if injected_sign(a >= 0x8000_0000_0000_0000, b >= 0x8000_0000_0000_0000, n, x) {
        (magnitude + 0x8000_0000_0000_0000) as u64
    } else {
        magnitude
    }
}

proof fn lemma_sign_bits32(a: u32, v: u32, b: u32)
    by (bit_vector)
    ensures
        a & !0x8000_0000u32 == a % 0x8000_0000u32,
        (v ^ b) & 0x8000_0000u32 == (if (v >= 0x8000_0000u32) != (b >= 0x8000_0000u32) {
            0x8000_0000u32
        } else {
            0u32
        }),
        (a & !0x8000_0000u32) | 0x8000_0000u32 == (a % 0x8000_0000u32) + 0x8000_0000u32,
        (a & !0x8000_0000u32) | 0u32 == a % 0x8000_0000u32,
{
}

proof fn lemma_sign_bits64(a: u64, v: u64, b: u64)
    by (bit_vector)
    ensures
        a & !0x8000_0000_0000_0000u64 == a % 0x8000_0000_0000_0000u64,
        (v ^ b) & 0x8000_0000_0000_0000u64 == (if (v >= 0x8000_0000_0000_0000u64) != (b
            >= 0x8000_0000_0000_0000u64) {
            0x8000_0000_0000_0000u64
        } else {
            0u64
        }),
        (a & !0x8000_0000_0000_0000u64) | 0x8000_0000_0000_0000u64 == (a
            % 0x8000_0000_0000_0000u64) + 0x8000_0000_0000_0000u64,
        (a & !0x8000_0000_0000_0000u64) | 0u64 == a % 0x8000_0000_0000_0000u64,
{
}

/// Sign injection on single-precision patterns.
pub fn fsgnj32(a: u32, b: u32, n: bool, x: bool) -> (r: u32)
    ensures
        r == spec_fsgnj32(a, b, n, x),
{
    let t: u32 = if n {
        F32_SIGN
    } else {
        0
    };
    let v: u32 = if x {
        a
    } else {
        t
    };
    proof {
        lemma_sign_bits32(a, v, b);
    }
    (a & !F32_SIGN) | ((v ^ b) & F32_SIGN)
}

/// Sign injection on double-precision patterns.
pub fn fsgnj64(a: u64, b: u64, n: bool, x: bool) -> (r: u64)
    ensures
        r == spec_fsgnj64(a, b, n, x),
{
    let t: u64 = if n {
        F64_SIGN
    } else {
        0
    };
    let v: u64 = if x {
        a
    } else {
        t
    };
    proof {
        lemma_sign_bits64(a, v, b);
    }
    (a & !F64_SIGN) | ((v ^ b) & F64_SIGN)
}

/// The classification mask of a floating-point value, from the parts of
/// its pattern.  Exactly one of the ten bits is set:
/// bit 0 negative infinity, 1 negative normal, 2 negative subnormal,
/// 3 negative zero, 4 positive zero, 5 positive subnormal, 6 positive
/// normal, 7 positive infinity, 8 signaling NaN, 9 quiet NaN.
pub open spec fn class_mask(
    sign: bool,
    exp_ones: bool,
    exp_zero: bool,
    frac_zero: bool,
    quiet: bool,
) -> u16 {
    if exp_ones && !frac_zero {
        if quiet {
            0x200
        } else {
            0x100
        }
    } else if exp_ones {
        if sign {
            0x001
        } else {
            0x080
        }
    } else if exp_zero && frac_zero {
        if sign {
            0x008
        } else {
            0x010
        }
    } else if exp_zero {
        if sign {
            0x004
        } else {
            0x020
        }
    } else {
        if sign {
            0x002
        } else {
            0x040
        }
    }
}

/// Classification of a single-precision pattern: 1 sign bit, 8 exponent
/// bits, 23 fraction bits, the top fraction bit marking a quiet NaN.
pub open spec fn spec_f32_classify(a: u32) -> u16 {
    let exp = a / 0x80_0000 % 0x100;
    let frac = a % 0x80_0000;
    class_mask(a >= 0x8000_0000, exp == 0xff, exp == 0, frac == 0, frac >= 0x40_0000)
}

/// Classification of a double-precision pattern: 1 sign bit, 11 exponent
/// bits, 52 fraction bits, the top fraction bit marking a quiet NaN.
pub open spec fn spec_f64_classify(a: u64) -> u16 {
    let exp = a / 0x10_0000_0000_0000 % 0x800;
    let frac = a % 0x10_0000_0000_0000;
    class_mask(
        a >= 0x8000_0000_0000_0000,
        exp == 0x7ff,
        exp == 0,
        frac == 0,
        frac >= 0x8_0000_0000_0000,
    )
}

fn classify(sign: bool, exp_ones: bool, exp_zero: bool, frac_zero: bool, quiet: bool) -> (r:
    u16)
    ensures
        r == class_mask(sign, exp_ones, exp_zero, frac_zero, quiet),
{
    if exp_ones && !frac_zero {
        if quiet {
            0x200
        } else {
            0x100
        }
    } else if exp_ones {
        if sign {
            0x001
        } else {
            0x080
        }
    } else if exp_zero {
        if frac_zero {
            if sign {
                0x008
            } else {
                0x010
            }
        } else if sign {
            0x004
        } else {
            0x020
        }
    } else if sign {
        0x002
    } else {
        0x040
    }
}

/// Classifies the single-precision value with the bit pattern `a`.
pub fn f32_classify(a: u32) -> (r: u16)
    ensures
        r == spec_f32_classify(a),
{
    let exp: u32 = a / 0x80_0000 % 0x100;
    let frac: u32 = a % 0x80_0000;
    classify(a >= F32_SIGN, exp == 0xff, exp == 0, frac == 0, frac >= 0x40_0000)
}

/// Classifies the double-precision value with the bit pattern `a`.
pub fn f64_classify(a: u64) -> (r: u16)
    ensures
        r == spec_f64_classify(a),
{
    let exp: u64 = a / 0x10_0000_0000_0000 % 0x800;
    let frac: u64 = a % 0x10_0000_0000_0000;
    classify(a >= F64_SIGN, exp == 0x7ff, exp == 0, frac == 0, frac >= 0x8_0000_0000_0000)
}

} // verus!
