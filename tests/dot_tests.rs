use compensated_dot::dot;
use float_cmp::ApproxEq;
use rand::rngs::StdRng;
use rand::Rng;
use rand::SeedableRng;

#[test]
fn simple_dot_test() {
    let x1 = vec![1.0, 2.0, 3.0];
    let x2 = vec![1.0, 1.0 / 2.0, 1.0 / 3.0];
    assert_eq!(dot(&x1, &x2), 3.0);
}

#[test]
fn accuracy_dot_test() {
    let nsizes = 10000;
    for n in 1..nsizes {
        let x1 = vec![0.123; n];
        let x2 = vec![1.0; n];
        let pass = dot(&x1, &x2).approx_eq((n as f64) * 0.123, (0.0, 10));
        if !pass {
            println!("FAILED RESULTS:\n{}\n{}\n", dot(&x1, &x2), (n as f64) * 0.123);
        }
        assert!(pass);
    }
}

#[test]
fn uniformly_distributed_right_additive_dot_test() {
    let seed = 98712983 as u64;
    let mut rng = StdRng::seed_from_u64(seed);

    let nsizes = 1000;
    for n in 1..nsizes {
        let x: Vec<f64> = (0..n).map(|_| rng.gen_range(-1.0f64, 2.0f64)).collect();
        let y: Vec<f64> = (0..n).map(|_| rng.gen_range(-1.0f64, 2.0f64)).collect();
        let z: Vec<f64> = (0..n).map(|_| rng.gen_range(-1.0f64, 2.0f64)).collect();

        let ypz: Vec<f64> = y.iter().zip(z.iter()).map(|(u, v)| u + v).collect();

        let left = dot(&x, &ypz);
        let right = dot(&x, &y) + dot(&x, &z);
        let left_equals_right = left.approx_eq(right, (0.0, 10));
        if !left_equals_right {
            println!("{}\n{}\n", left, right);
        }
        assert!(left_equals_right);
    }
}

#[test]
fn uniformly_distributed_left_multiplicative_test() {
    let seed = 98712983 as u64;
    let mut rng = StdRng::seed_from_u64(seed);

    let nsizes = 1000;
    for n in 1..nsizes {
        let x: Vec<f64> = (0..n).map(|_| rng.gen_range(-1.0f64, 2.0f64)).collect();
        let y: Vec<f64> = (0..n).map(|_| rng.gen_range(-1.0f64, 2.0f64)).collect();

        let a: f64 = rng.gen_range(-10.0, 10.0);
        let ax: Vec<f64> = x.iter().map(|z| a * z).collect();

        let left = dot(&ax, &y);
        let right = a * dot(&x, &y);
        let left_equals_right = left.approx_eq(right, (0.0, 20));
        if !left_equals_right {
            println!("{}\n{}\n", left, right);
        }
        assert!(left_equals_right);
    }
}

#[test]
fn uniformly_distributed_right_multiplicative_test() {
    let seed = 98712983 as u64;
    let mut rng = StdRng::seed_from_u64(seed);

    let nsizes = 1000;
    for n in 1..nsizes {
        let x: Vec<f64> = (0..n).map(|_| rng.gen_range(-1.0f64, 2.0f64)).collect();
        let y: Vec<f64> = (0..n).map(|_| rng.gen_range(-1.0f64, 2.0f64)).collect();

        let a: f64 = rng.gen_range(-10.0, 10.0);
        let ax: Vec<f64> = x.iter().map(|z| a * z).collect();

        let left = dot(&y, &ax);
        let right = a * dot(&y, &x);
        let left_equals_right = left.approx_eq(right, (0.0, 20));
        if !left_equals_right {
            println!("{}\n{}\n", left, right);
        }
        assert!(left_equals_right);
    }
}
