use paragen::number::{HALF_BITS, NEGATIVE_ZERO_BITS, ONE_BITS, ZERO_BITS};
use paragen::{Real, ToJson};

#[test]
fn a_float_is_taken_with_its_bits() {
    let number = Real::new(serde_json::Value::from(1.5f64)).unwrap();
    assert_eq!(number.to_bits(), 1.5f64.to_bits());
    assert_eq!(number.to_bits(), 0x3ff8_0000_0000_0000);
    let small = Real::new(serde_json::Value::from(-2.5e-3f64)).unwrap();
    assert_eq!(f64::from_bits(small.to_bits()), -2.5e-3);
}

#[test]
fn what_is_no_float_is_turned_down() {
    assert!(Real::new(serde_json::Value::from(1u32)).is_none());
    assert!(Real::new(serde_json::Value::from(-1i32)).is_none());
    assert!(Real::new(serde_json::Value::Null).is_none());
    assert!(Real::new(serde_json::Value::from("1.5")).is_none());
    assert!(Real::new(serde_json::Value::from(true)).is_none());
    assert!(Real::new(serde_json::Value::from(f64::NAN)).is_none());
    assert!(Real::new(serde_json::Value::from(f64::INFINITY)).is_none());
}

#[test]
fn the_default_numbers_are_zero_half_and_one() {
    assert_eq!(Real::zero().to_bits(), 0.0f64.to_bits());
    assert_eq!(Real::half().to_bits(), 0.5f64.to_bits());
    assert_eq!(Real::one().to_bits(), 1.0f64.to_bits());
    assert_eq!(ZERO_BITS, 0.0f64.to_bits());
    assert_eq!(NEGATIVE_ZERO_BITS, (-0.0f64).to_bits());
    assert_eq!(HALF_BITS, 0.5f64.to_bits());
    assert_eq!(ONE_BITS, 1.0f64.to_bits());
}

#[test]
fn the_default_numbers_are_written_as_floats() {
    assert_eq!(serde_json::to_string(&Real::zero().to_value()).unwrap(), "0.0");
    assert_eq!(serde_json::to_string(&Real::half().to_value()).unwrap(), "0.5");
    assert_eq!(serde_json::to_string(&Real::one().to_value()).unwrap(), "1.0");
}

#[test]
fn a_number_is_written_as_it_was_taken() {
    let value = serde_json::Value::from(0.1f64);
    let number = Real::new(value.clone()).unwrap();
    assert_eq!(number.to_value(), value);
    assert_eq!(serde_json::to_string(&number.to_value()).unwrap(), "0.1");
}

#[test]
fn numbers_compare_as_floats_do() {
    let zero = Real::zero();
    assert!(zero.is(ZERO_BITS));
    assert!(zero.is(NEGATIVE_ZERO_BITS));
    assert!(!zero.is(ONE_BITS));
    let negative_zero = Real::new(serde_json::Value::from(-0.0f64)).unwrap();
    assert_eq!(negative_zero.to_bits(), NEGATIVE_ZERO_BITS);
    assert!(negative_zero.is(ZERO_BITS));
    let one = Real::one();
    assert!(one.is(ONE_BITS));
    assert!(!one.is(HALF_BITS));
    assert!(!one.is(ZERO_BITS));
    let minus_one = Real::new(serde_json::Value::from(-1.0f64)).unwrap();
    assert!(!minus_one.is(ONE_BITS));
}

#[test]
fn a_clone_is_the_same_number() {
    let number = Real::new(serde_json::Value::from(3.25f64)).unwrap();
    let copy = number.clone();
    assert_eq!(copy.to_bits(), number.to_bits());
    assert_eq!(copy.to_value(), number.to_value());
}

#[test]
fn equality_is_that_of_floats() {
    let zero = Real::zero();
    let negative_zero = Real::new(serde_json::Value::from(-0.0f64)).unwrap();
    assert!(zero == negative_zero);
    assert!(zero == Real::zero());
    assert!(Real::one() != Real::half());
    assert!(Real::one() == Real::new(serde_json::Value::from(1.0f64)).unwrap());
}

#[test]
fn a_transform_equals_its_default_exactly_when_it_is_left_out() {
    let moved = paragen::Translation { x: Real::zero(), y: Real::one(), z: Real::zero() };
    assert!(moved != paragen::Translation::new());
    assert!(!moved.is_default());
    let still = paragen::Translation {
        x: Real::new(serde_json::Value::from(-0.0f64)).unwrap(),
        y: Real::zero(),
        z: Real::zero(),
    };
    assert!(still == paragen::Translation::new());
    assert!(still.is_default());
    assert!(paragen::Rotation::new() == paragen::Rotation::new());
    let turned =
        paragen::Rotation { x: Real::one(), y: Real::zero(), z: Real::zero(), w: Real::zero() };
    assert!(turned != paragen::Rotation::new());
    assert!(paragen::Scale::new() == paragen::Scale::new());
    let grown = paragen::Scale { x: Real::one(), y: Real::one(), z: Real::half() };
    assert!(grown != paragen::Scale::new());
    assert!(paragen::Color4::new() == paragen::Color4::new());
    let clear = paragen::Color4 { r: Real::one(), g: Real::one(), b: Real::one(), a: Real::zero() };
    assert!(clear != paragen::Color4::new());
    assert!(!clear.is_default());
}
