use compensated_dot::dot;
use compensated_dot::naive_dot;

#[test]
fn empty_vectors_give_zero() {
    let e: Vec<f64> = Vec::new();
    assert_eq!(dot(&e, &e), 0.0);
    assert_eq!(naive_dot(&e, &e), 0.0);
    let e: Vec<u64> = Vec::new();
    assert_eq!(dot(&e, &[1, 2, 3]), 0);
}

#[test]
fn integer_dot_is_exact() {
    let x: Vec<u64> = vec![1, 2, 3];
    let y: Vec<u64> = vec![4, 5, 6];
    assert_eq!(dot(&x, &y), 32);
    assert_eq!(naive_dot(&x, &y), 32);
    let a: Vec<i64> = vec![-3, 7, 2];
    let b: Vec<i64> = vec![5, -1, 10];
    assert_eq!(dot(&a, &b), -2);
    assert_eq!(naive_dot(&a, &b), -2);
}

#[test]
fn naive_dot_known_value() {
    let x = vec![1.5, -2.0, 4.0];
    let y = vec![2.0, 0.25, 0.5];
    assert_eq!(naive_dot(&x, &y), 4.5);
    assert_eq!(dot(&x, &y), 4.5);
}

#[test]
fn compensation_recovers_lost_bits() {
    let x = vec![0.1f64; 10];
    let y = vec![1.0f64; 10];
    assert_eq!(naive_dot(&x, &y), 0.9999999999999999);
    assert_eq!(dot(&x, &y), 1.0);
}

#[test]
fn length_mismatch_uses_shared_prefix() {
    let x: Vec<f64> = vec![0.3, 1.7, -2.25, 9.5, 4.0];
    let y: Vec<f64> = vec![1.1, 0.9, 3.3];
    let k = 3;
    assert_eq!(dot(&x, &y).to_bits(), dot(&x[0..k], &y[0..k]).to_bits());
    assert_eq!(dot(&y, &x).to_bits(), dot(&y[0..k], &x[0..k]).to_bits());
    let a: Vec<u64> = vec![2, 3];
    let b: Vec<u64> = vec![5, 7, 11, 13];
    assert_eq!(dot(&a, &b), 31);
    assert_eq!(naive_dot(&a, &b), 31);
}

#[test]
fn repeated_calls_are_bit_identical() {
    let x: Vec<f64> = (0..500).map(|i| ((i * 37 % 101) as f64) * 0.013 - 0.6).collect();
    let y: Vec<f64> = (0..500).map(|i| ((i * 53 % 97) as f64) * 0.021 - 1.1).collect();
    let first = dot(&x, &y).to_bits();
    for _ in 0..10 {
        assert_eq!(dot(&x, &y).to_bits(), first);
    }
}

#[test]
fn single_precision_instance() {
    let x: Vec<f32> = vec![1.0, 2.0, 3.0];
    let y: Vec<f32> = vec![0.5, 0.25, 2.0];
    assert_eq!(dot(&x, &y), 7.0f32);
}

#[test]
fn integer_linearity() {
    let x: Vec<i64> = vec![3, -4, 5, 6];
    let y: Vec<i64> = vec![1, 2, -7, 8];
    let z: Vec<i64> = vec![-2, 9, 4, 1];
    let ypz: Vec<i64> = y.iter().zip(z.iter()).map(|(u, v)| u + v).collect();
    assert_eq!(dot(&x, &ypz), dot(&x, &y) + dot(&x, &z));
    let a: i64 = -3;
    let ax: Vec<i64> = x.iter().map(|v| a * v).collect();
    assert_eq!(dot(&ax, &y), a * dot(&x, &y));
    assert_eq!(dot(&y, &ax), a * dot(&y, &x));
}
