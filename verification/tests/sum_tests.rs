use colscan::{sum_naive32, sum_naive64, sum_vectorized};

fn bits32(values: &[f32]) -> Vec<u32> {
    values.iter().map(|v| v.to_bits()).collect()
}

fn bits64(values: &[f64]) -> Vec<u64> {
    values.iter().map(|v| v.to_bits()).collect()
}

#[test]
fn naive32_small_exact() {
    let r = sum_naive32(&bits32(&[1.0, 2.0, 3.0]));
    assert_eq!(f32::from_bits(r), 6.0);
}

#[test]
fn naive32_single_value_passes_through() {
    let r = sum_naive32(&bits32(&[2.5]));
    assert_eq!(f32::from_bits(r), 2.5);
}

#[test]
fn naive32_empty_is_zero() {
    let r = sum_naive32(&Vec::new());
    assert_eq!(f32::from_bits(r), 0.0);
}

#[test]
fn naive32_is_left_to_right() {
    let values: Vec<f32> = vec![1.0e8, 1.0, -1.0e8, 0.25];
    let mut expected: f32 = 0.0;
    for v in &values {
        expected = expected + v;
    }
    let r = sum_naive32(&bits32(&values));
    assert_eq!(f32::from_bits(r), expected);
}

#[test]
fn naive64_small_exact() {
    let r = sum_naive64(&bits64(&[10.0, 20.0, 30.0]));
    assert_eq!(f64::from_bits(r), 60.0);
}

#[test]
fn naive64_empty_is_zero() {
    let r = sum_naive64(&Vec::new());
    assert_eq!(f64::from_bits(r), 0.0);
}

#[test]
fn vectorized_small_exact() {
    let r = sum_vectorized(&bits32(&[1.0, 2.0, 3.0]));
    assert_eq!(f32::from_bits(r), 6.0);
}

#[test]
fn vectorized_empty_is_zero() {
    let r = sum_vectorized(&Vec::new());
    assert_eq!(f32::from_bits(r), 0.0);
}

#[test]
fn vectorized_close_to_naive() {
    let mut values: Vec<f32> = Vec::new();
    let mut x: f32 = 0.1;
    for _ in 0..10_000 {
        values.push(x);
        x = (x * 1.000_37).rem_euclid(97.0) + 0.013;
    }
    let b = bits32(&values);
    let naive = f32::from_bits(sum_naive32(&b)) as f64;
    let vectorized = f32::from_bits(sum_vectorized(&b)) as f64;
    let rel = ((naive - vectorized) / naive).abs();
    assert!(rel < 1.0e-5, "naive {naive} vs vectorized {vectorized}");
}

#[test]
fn nan_propagates_through_naive() {
    let r = sum_naive32(&bits32(&[1.0, f32::NAN, 3.0]));
    assert!(f32::from_bits(r).is_nan());
}

#[test]
fn infinity_propagates_through_naive() {
    let r = sum_naive32(&bits32(&[1.0, f32::INFINITY, 3.0]));
    assert_eq!(f32::from_bits(r), f32::INFINITY);
}

#[test]
fn opposite_infinities_produce_nan() {
    let r = sum_naive32(&bits32(&[f32::INFINITY, f32::NEG_INFINITY]));
    assert!(f32::from_bits(r).is_nan());
}

#[test]
fn nan_propagates_through_naive64() {
    let r = sum_naive64(&bits64(&[1.0, f64::NAN, 2.0]));
    assert!(f64::from_bits(r).is_nan());
}
