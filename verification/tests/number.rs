use comic_collection::number::Double;

fn double(value: f64) -> Double {
    Double::from_bits(value.to_bits())
}

#[test]
fn bits_round_trip() {
    for value in [0.0f64, -0.0, 1.0, 9.8, 12.345678901234567, f64::MAX, f64::MIN_POSITIVE, -3.5] {
        assert_eq!(f64::from_bits(double(value).to_bits()).to_bits(), value.to_bits());
    }
}

#[test]
fn sort_key_of_known_numbers() {
    assert_eq!(double(0.0).sort_key(), 0);
    assert_eq!(double(-0.0).sort_key(), 0);
    assert_eq!(double(1.0).sort_key(), 0x3FF0_0000_0000_0000);
    assert_eq!(double(-1.0).sort_key(), -0x3FF0_0000_0000_0000);
    assert_eq!(double(f64::INFINITY).sort_key(), 0x7FF0_0000_0000_0000);
    assert_eq!(double(f64::NEG_INFINITY).sort_key(), -0x7FF0_0000_0000_0000);
    assert_eq!(double(f64::NAN).sort_key(), 0x7FF0_0000_0000_0001);
    assert_eq!(double(-f64::NAN).sort_key(), 0x7FF0_0000_0000_0001);
    assert_eq!(Double::from_bits(u64::MAX).sort_key(), 0x7FF0_0000_0000_0001);
}

#[test]
fn sort_key_orders_as_the_numbers_do() {
    let values = [
        f64::NEG_INFINITY, f64::MIN, -1e10, -2.5, -1.0, -f64::MIN_POSITIVE, -0.0, 0.0,
        f64::MIN_POSITIVE, 0.5, 1.0, 2.5, 99.99, 1e10, f64::MAX, f64::INFINITY,
    ];
    for a in values {
        for b in values {
            assert_eq!(double(a).sort_key() <= double(b).sort_key(), a <= b, "{} and {}", a, b);
            assert_eq!(double(a).precedes_or_ties(&double(b)), a <= b, "{} and {}", a, b);
        }
    }
}

#[test]
fn nan_comes_after_every_number() {
    let nan = double(f64::NAN);
    for value in [f64::NEG_INFINITY, -1.0, 0.0, 1.0, f64::MAX, f64::INFINITY] {
        assert!(double(value).precedes_or_ties(&nan));
        assert!(!nan.precedes_or_ties(&double(value)));
    }
    assert!(nan.precedes_or_ties(&double(-f64::NAN)));
}
