use exchange_persist::decimal::{encode, DecimalValue};

fn dec(mantissa: i128, scale: u32) -> DecimalValue {
    DecimalValue { mantissa, scale }
}

#[test]
fn encode_scales_up_to_the_precision() {
    // 2.5 at eight places
    assert_eq!(encode(dec(25, 1), 8), Some(250_000_000));
    // 250 at six places
    assert_eq!(encode(dec(250, 0), 6), Some(250_000_000));
    assert_eq!(encode(dec(2500, 1), 6), Some(250_000_000));
}

#[test]
fn encode_at_the_scale_is_the_mantissa() {
    assert_eq!(encode(dec(12345, 3), 3), Some(12345));
    assert_eq!(encode(dec(7, 0), 0), Some(7));
}

#[test]
fn encode_drops_digits_beyond_the_precision() {
    // 1.239 at two places
    assert_eq!(encode(dec(1239, 3), 2), Some(123));
    // 0.999 at no place
    assert_eq!(encode(dec(999, 3), 0), Some(0));
    assert_eq!(encode(dec(1, 28), 6), Some(0));
}

#[test]
fn encode_of_zero_is_zero_at_every_precision() {
    assert_eq!(encode(dec(0, 0), 0), Some(0));
    assert_eq!(encode(dec(0, 5), u32::MAX), Some(0));
    assert_eq!(encode(dec(0, u32::MAX), 0), Some(0));
}

#[test]
fn encode_refuses_a_negative_number() {
    assert_eq!(encode(dec(-1, 0), 0), None);
    assert_eq!(encode(dec(-25, 1), 8), None);
    assert_eq!(encode(dec(-1, 10), 2), None);
}

#[test]
fn encode_refuses_what_does_not_fit() {
    assert_eq!(encode(dec(u64::MAX as i128, 0), 0), Some(u64::MAX));
    assert_eq!(encode(dec(u64::MAX as i128 + 1, 0), 0), None);
    assert_eq!(encode(dec(u64::MAX as i128, 0), 1), None);
    assert_eq!(encode(dec(1, 0), 19), Some(10_000_000_000_000_000_000));
    assert_eq!(encode(dec(1, 0), 20), None);
    assert_eq!(encode(dec(1, 0), u32::MAX), None);
    assert_eq!(encode(dec(i128::MAX, 0), 0), None);
}

#[test]
fn encode_of_a_large_mantissa_with_a_large_scale() {
    // 2^96 - 1 with 28 places is a little over 7.9
    let mantissa: i128 = (1i128 << 96) - 1;
    assert_eq!(encode(dec(mantissa, 28), 0), Some(7));
    assert_eq!(encode(dec(mantissa, 28), 2), Some(792));
    assert_eq!(encode(dec(i128::MAX, 38), 0), Some(1));
    assert_eq!(encode(dec(i128::MAX, u32::MAX), 0), Some(0));
}
