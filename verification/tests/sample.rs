use motion_analysis::sample::{sample_from_bits, sample_to_bits, SAMPLE_MAX, SAMPLE_MIN};

fn key(value: f32) -> i32 {
    sample_from_bits(value.to_bits()).expect("a number")
}

fn value(key: i32) -> f32 {
    f32::from_bits(sample_to_bits(key).expect("a key"))
}

#[test]
fn zero_has_key_zero() {
    assert_eq!(sample_from_bits(0.0f32.to_bits()), Some(0));
    assert_eq!(sample_from_bits((-0.0f32).to_bits()), Some(0));
    assert_eq!(sample_to_bits(0), Some(0));
}

#[test]
fn known_keys() {
    assert_eq!(key(1.0), 0x3F80_0000);
    assert_eq!(key(-1.0), -0x3F80_0000);
    assert_eq!(key(0.5), 0x3F00_0000);
    assert_eq!(key(f32::INFINITY), SAMPLE_MAX);
    assert_eq!(key(f32::NEG_INFINITY), SAMPLE_MIN);
    assert_eq!(key(f32::from_bits(1)), 1);
    assert_eq!(key(f32::from_bits(0x8000_0001)), -1);
}

#[test]
fn nan_has_no_key() {
    assert_eq!(sample_from_bits(f32::NAN.to_bits()), None);
    assert_eq!(sample_from_bits(0x7F80_0001), None);
    assert_eq!(sample_from_bits(0xFF80_0001), None);
    assert_eq!(sample_from_bits(0xFFFF_FFFF), None);
    assert_eq!(sample_from_bits(0x7FFF_FFFF), None);
}

#[test]
fn keys_outside_the_range_have_no_bits() {
    assert_eq!(sample_to_bits(SAMPLE_MAX + 1), None);
    assert_eq!(sample_to_bits(SAMPLE_MIN - 1), None);
    assert_eq!(sample_to_bits(i32::MAX), None);
    assert_eq!(sample_to_bits(i32::MIN), None);
    assert_eq!(sample_to_bits(SAMPLE_MAX), Some(0x7F80_0000));
    assert_eq!(sample_to_bits(SAMPLE_MIN), Some(0xFF80_0000));
}

#[test]
fn keys_give_the_value_back() {
    let values = [
        0.0f32,
        1.0,
        -1.0,
        0.14,
        -0.14,
        3.5e-40,
        -3.5e-40,
        f32::MAX,
        f32::MIN,
        f32::MIN_POSITIVE,
        f32::INFINITY,
        f32::NEG_INFINITY,
        1234.5678,
    ];
    for v in values {
        assert_eq!(value(key(v)), v);
        assert_eq!(value(key(v)).to_bits(), v.to_bits());
    }
    assert_eq!(value(key(-0.0)).to_bits(), 0.0f32.to_bits());
}

#[test]
fn keys_are_ordered_as_the_values() {
    let values = [
        f32::NEG_INFINITY,
        f32::MIN,
        -1000.0,
        -1.0,
        -0.14,
        -f32::MIN_POSITIVE,
        -1.0e-42,
        -0.0,
        0.0,
        1.0e-42,
        f32::MIN_POSITIVE,
        0.05,
        0.14,
        0.4999,
        0.5,
        1.0,
        1000.0,
        f32::MAX,
        f32::INFINITY,
    ];
    for a in values {
        for b in values {
            assert_eq!(key(a) < key(b), a < b);
            assert_eq!(key(a) == key(b), a == b);
            assert_eq!(key(a) > key(b), a > b);
        }
    }
}

#[test]
fn neighbouring_bit_patterns_have_neighbouring_keys() {
    for bits in [0u32, 1, 2, 0x0080_0000, 0x3F80_0000, 0x7F7F_FFFF] {
        assert_eq!(
            sample_from_bits(bits + 1).unwrap(),
            sample_from_bits(bits).unwrap() + 1
        );
        assert_eq!(
            sample_from_bits(0x8000_0000 + bits + 1).unwrap(),
            sample_from_bits(0x8000_0000 + bits).unwrap() - 1
        );
    }
}
