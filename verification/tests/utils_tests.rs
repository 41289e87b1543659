use rvemu_rs::arith::{div_i64, rem_i64, sign_extend_word};
use rvemu_rs::interp_utils::{
    f32_classify, f64_classify, fsgnj32, fsgnj64, mulh, mulhsu, mulhu,
};

#[test]
fn mulh_of_minus_one_squared_is_zero() {
    assert_eq!(mulh(-1, -1), 0);
}

#[test]
fn mulhu_of_max_squared() {
    assert_eq!(mulhu(u64::MAX, u64::MAX), u64::MAX - 1);
}

#[test]
fn mulhu_matches_wide_product() {
    let values = [
        0u64,
        1,
        2,
        0xffff_ffff,
        0x1_0000_0000,
        0x1234_5678_9abc_def0,
        0x8000_0000_0000_0000,
        0xdead_beef_cafe_babe,
        u64::MAX - 1,
        u64::MAX,
    ];
    for a in values {
        for b in values {
            let wide = (a as u128) * (b as u128);
            assert_eq!(mulhu(a, b), (wide >> 64) as u64);
        }
    }
}

#[test]
fn mulh_matches_wide_product() {
    let values = [
        0i64,
        1,
        -1,
        2,
        -2,
        0x7fff_ffff,
        -0x8000_0000,
        0x1234_5678_9abc_def0,
        -0x1234_5678_9abc_def0,
        i64::MAX,
        i64::MIN,
        i64::MIN + 1,
    ];
    for a in values {
        for b in values {
            let wide = (a as i128) * (b as i128);
            assert_eq!(mulh(a, b), (wide >> 64) as i64);
        }
    }
}

#[test]
fn mulhsu_matches_wide_product() {
    let signed = [0i64, 1, -1, 3, -3, i64::MAX, i64::MIN, -0x1234_5678_9abc_def0];
    let unsigned = [0u64, 1, 2, 0xffff_ffff_ffff, 0x8000_0000_0000_0000, u64::MAX];
    for a in signed {
        for b in unsigned {
            let wide = (a as i128) * (b as i128);
            assert_eq!(mulhsu(a, b), (wide >> 64) as i64);
        }
    }
}

#[test]
fn mulhsu_agrees_with_mulh_below_the_top_bit() {
    let signed = [0i64, 1, -1, 12345, -98765, i64::MAX, i64::MIN];
    let unsigned = [0u64, 1, 77, 0x1234_5678, 0x7fff_ffff_ffff_ffff];
    for a in signed {
        for b in unsigned {
            assert_eq!(mulhsu(a, b), mulh(a, b as i64));
        }
    }
}

#[test]
fn signed_division_rounds_toward_zero() {
    assert_eq!(div_i64(7, 2), 3);
    assert_eq!(div_i64(-7, 2), -3);
    assert_eq!(div_i64(7, -2), -3);
    assert_eq!(div_i64(-7, -2), 3);
    assert_eq!(rem_i64(7, 2), 1);
    assert_eq!(rem_i64(-7, 2), -1);
    assert_eq!(rem_i64(7, -2), 1);
    assert_eq!(rem_i64(-7, -2), -1);
    assert_eq!(div_i64(i64::MIN, 1), i64::MIN);
    assert_eq!(div_i64(i64::MAX, -1), -i64::MAX);
}

#[test]
fn word_sign_extension() {
    assert_eq!(sign_extend_word(0x7fff_ffff), 0x7fff_ffff);
    assert_eq!(sign_extend_word(0x8000_0000), 0xffff_ffff_8000_0000);
    assert_eq!(sign_extend_word(0xffff_ffff), u64::MAX);
}

#[test]
fn sign_injection_single() {
    let one = 1.0f32.to_bits();
    let minus_two = (-2.0f32).to_bits();
    assert_eq!(fsgnj32(one, minus_two, false, false), (-1.0f32).to_bits());
    assert_eq!(fsgnj32(one, minus_two, true, false), 1.0f32.to_bits());
    assert_eq!(fsgnj32(one, minus_two, false, true), (-1.0f32).to_bits());
    assert_eq!(fsgnj32(minus_two, minus_two, false, true), 2.0f32.to_bits());
    assert_eq!(fsgnj32(minus_two, one, false, false), 2.0f32.to_bits());
    assert_eq!(fsgnj32(minus_two, one, true, false), (-2.0f32).to_bits());
    assert_eq!(fsgnj32(0x7fff_ffff, 0x8000_0000, false, false), 0xffff_ffff);
}

#[test]
fn sign_injection_double() {
    let one = 1.0f64.to_bits();
    let minus_two = (-2.0f64).to_bits();
    assert_eq!(fsgnj64(one, minus_two, false, false), (-1.0f64).to_bits());
    assert_eq!(fsgnj64(one, minus_two, true, false), 1.0f64.to_bits());
    assert_eq!(fsgnj64(one, minus_two, false, true), (-1.0f64).to_bits());
    assert_eq!(fsgnj64(minus_two, minus_two, false, true), 2.0f64.to_bits());
    assert_eq!(fsgnj64(minus_two, one, false, false), 2.0f64.to_bits());
    assert_eq!(fsgnj64(minus_two, one, true, false), (-2.0f64).to_bits());
}

#[test]
fn fclass_single_bit_layout() {
    assert_eq!(f32_classify(f32::INFINITY.to_bits()), 1 << 7);
    assert_eq!(f32_classify(f32::NAN.to_bits()), 1 << 9);
    assert_eq!(f32_classify((-0.0f32).to_bits()), 1 << 3);
    assert_eq!(f32_classify(f32::NEG_INFINITY.to_bits()), 1 << 0);
    assert_eq!(f32_classify((-1.5f32).to_bits()), 1 << 1);
    assert_eq!(f32_classify(0x8000_0001), 1 << 2);
    assert_eq!(f32_classify(0.0f32.to_bits()), 1 << 4);
    assert_eq!(f32_classify(0x0000_0001), 1 << 5);
    assert_eq!(f32_classify(f32::MAX.to_bits()), 1 << 6);
    assert_eq!(f32_classify(f32::MIN_POSITIVE.to_bits()), 1 << 6);
    // a signaling NaN: exponent all ones, top fraction bit clear
    assert_eq!(f32_classify(0x7f80_0001), 1 << 8);
    assert_eq!(f32_classify(0xffa0_0000), 1 << 8);
    assert_eq!(f32_classify(0xffc0_0000), 1 << 9);
}

#[test]
fn fclass_double_bit_layout() {
    assert_eq!(f64_classify(f64::INFINITY.to_bits()), 1 << 7);
    assert_eq!(f64_classify(f64::NAN.to_bits()), 1 << 9);
    assert_eq!(f64_classify((-0.0f64).to_bits()), 1 << 3);
    assert_eq!(f64_classify(f64::NEG_INFINITY.to_bits()), 1 << 0);
    assert_eq!(f64_classify((-1.5f64).to_bits()), 1 << 1);
    assert_eq!(f64_classify(0x8000_0000_0000_0001), 1 << 2);
    assert_eq!(f64_classify(0.0f64.to_bits()), 1 << 4);
    assert_eq!(f64_classify(0x0000_0000_0000_0001), 1 << 5);
    assert_eq!(f64_classify(f64::MAX.to_bits()), 1 << 6);
    assert_eq!(f64_classify(0x7ff0_0000_0000_0001), 1 << 8);
    assert_eq!(f64_classify(0x7ff8_0000_0000_0000), 1 << 9);
}
