use optimization_eg551_practical::common::fixed::Fixed;
use optimization_eg551_practical::week02_neville::neville;
use optimization_eg551_practical::week02_neville::neville_functional;

fn fx(v: f64) -> Fixed {
    Fixed::from_units(v < 0.0, (v.abs() * 1e15).round() as u128)
}

fn to_f64(v: &Fixed) -> f64 {
    match v {
        Fixed::Num { neg, mag } => {
            let m = *mag as f64 / 1e15;
            if *neg { -m } else { m }
        }
        Fixed::Inf { neg } => {
            if *neg { f64::NEG_INFINITY } else { f64::INFINITY }
        }
        Fixed::NotANum => f64::NAN,
    }
}

fn pts(samples: &[(f64, f64)]) -> Vec<(Fixed, Fixed)> {
    let mut v: Vec<(Fixed, Fixed)> = Vec::new();
    for (x, y) in samples {
        v.push((fx(*x), fx(*y)));
    }
    v
}

#[test]
fn test_single_point() {
    let points = pts(&[(1.0, 5.0)]);
    let result = neville_functional(&points, fx(2.0));

    assert!((to_f64(&result.value) - 5.0).abs() < 1e-10);
    assert_eq!(result.pyramid.len(), 1);
    assert!(result.deltas.is_empty());
}

#[test]
fn test_two_points_linear() {
    // Linear interpolation: y = 2x + 1
    let points = pts(&[(0.0, 1.0), (1.0, 3.0)]);
    let result = neville_functional(&points, fx(0.5));

    // At x=0.5, y should be 2.0; the fixed-point recurrence is exact here
    assert!((to_f64(&result.value) - 2.0).abs() < 1e-10);
    assert_eq!(result.value, fx(2.0));
    assert_eq!(result.pyramid[1][0], fx(2.0));
    assert_eq!(result.pyramid.len(), 2);
    assert_eq!(result.deltas.len(), 1);
    assert_eq!(result.deltas[0], fx(1.0));
}

#[test]
fn test_quadratic_exact() {
    // y = x^2: points at x = -1, 0, 1
    let points = pts(&[(-1.0, 1.0), (0.0, 0.0), (1.0, 1.0)]);
    let result = neville_functional(&points, fx(0.5));

    // At x=0.5, y should be 0.25
    assert!((to_f64(&result.value) - 0.25).abs() < 1e-10);
    assert_eq!(result.pyramid.len(), 3);
}

#[test]
fn test_cubic_exact() {
    // y = x^3: points at x = -1, 0, 1, 2
    let points = pts(&[(-1.0, -1.0), (0.0, 0.0), (1.0, 1.0), (2.0, 8.0)]);
    let result = neville_functional(&points, fx(0.5));

    // At x=0.5, y should be 0.125
    assert!((to_f64(&result.value) - 0.125).abs() < 1e-10);
    assert_eq!(result.pyramid.len(), 4);
}

#[test]
fn test_pyramid_structure() {
    // 4 points should give pyramid with rows of length 4, 3, 2, 1
    let points = pts(&[(0.0, 0.0), (1.0, 1.0), (2.0, 4.0), (3.0, 9.0)]);
    let result = neville_functional(&points, fx(1.5));

    assert_eq!(result.pyramid.len(), 4);
    assert_eq!(result.pyramid[0].len(), 4);
    assert_eq!(result.pyramid[1].len(), 3);
    assert_eq!(result.pyramid[2].len(), 2);
    assert_eq!(result.pyramid[3].len(), 1);
}

#[test]
fn test_deltas_decreasing_for_polynomial() {
    // For a polynomial with enough points, deltas should generally decrease
    let mut samples: Vec<(f64, f64)> = Vec::new();
    for i in -5..=5 {
        let x = i as f64 * 0.5;
        samples.push((x, x * x));
    }
    let points = pts(&samples);
    let result = neville_functional(&points, fx(0.25));

    // Exact for quadratic with 3+ points, so later deltas should be small
    let last_delta = result.deltas.last().unwrap();
    assert!(to_f64(last_delta) < 1e-10);
}

#[test]
fn test_empty_points() {
    let points: Vec<(Fixed, Fixed)> = Vec::new();
    let result = neville_functional(&points, fx(1.0));

    assert!(result.value.is_nan());
    assert!(result.pyramid.is_empty());
    assert!(result.deltas.is_empty());
}

#[test]
fn test_interpolate_at_known_point() {
    // When x_target equals one of the x values, should return exact y
    let points = pts(&[(0.0, 1.0), (1.0, 3.0), (2.0, 7.0)]);
    let result = neville_functional(&points, fx(1.0));

    assert!((to_f64(&result.value) - 3.0).abs() < 1e-10);
}

#[test]
fn test_exactness_quadratic_four_points() {
    // Four samples of y = x^2 still reproduce the quadratic exactly.
    let points = pts(&[(-1.0, 1.0), (0.0, 0.0), (1.0, 1.0), (2.0, 4.0)]);
    let result = neville(&points, fx(0.5));
    assert!((to_f64(&result.value) - 0.25).abs() < 1e-10);
}

#[test]
fn test_imperative_matches_functional() {
    let points = pts(&[(0.5, 0.58813), (0.7, 0.72210), (0.3, 0.39646), (0.9, 0.89608)]);
    let a = neville(&points, fx(0.51));
    let b = neville_functional(&points, fx(0.51));
    assert_eq!(a.value, b.value);
    assert_eq!(a.pyramid, b.pyramid);
    assert_eq!(a.deltas, b.deltas);
}

#[test]
fn test_row_zero_is_input_y_values() {
    let points = pts(&[(0.1, 10.0), (0.2, 5.0), (0.3, 3.33333), (0.4, 2.5), (0.5, 2.0)]);
    let result = neville(&points, fx(0.15));
    assert_eq!(result.pyramid[0].len(), 5);
    for (i, (_, y)) in points.iter().enumerate() {
        assert_eq!(result.pyramid[0][i], *y);
    }
    assert_eq!(result.deltas.len(), 4);
}

#[test]
fn test_duplicate_x_propagates_sentinels() {
    // A repeated x-value makes the recurrence divide by zero; the result
    // carries an infinite or not-a-number sentinel instead of failing.
    let points = pts(&[(1.0, 1.0), (1.0, 2.0)]);
    let result = neville_functional(&points, fx(0.5));
    assert!(matches!(result.value, Fixed::Inf { .. } | Fixed::NotANum));
}
