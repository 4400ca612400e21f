use optimization_eg551_practical::common::fixed::Fixed;
use optimization_eg551_practical::week01_graphing::problems::linspace;
use optimization_eg551_practical::week01_graphing::problems::problem_non_smooth;
use optimization_eg551_practical::week01_graphing::problems::problem_piecewise;
use optimization_eg551_practical::week01_graphing::problems::problem_rational;
use optimization_eg551_practical::week01_graphing::problems::problem_table_plot;
use optimization_eg551_practical::week01_graphing::problems::x_table;
use optimization_eg551_practical::week01_graphing::problems::y_table;

fn fx(v: f64) -> Fixed {
    Fixed::from_units(v < 0.0, (v.abs() * 1e15).round() as u128)
}

fn to_f64(v: &Fixed) -> f64 {
    match v {
        Fixed::Num { neg, mag } => {
            let m = *mag as f64 / 1e15;
            if *neg { -m } else { m }
        }
        Fixed::Inf { neg } => {
            if *neg { f64::NEG_INFINITY } else { f64::INFINITY }
        }
        Fixed::NotANum => f64::NAN,
    }
}

#[test]
fn test_linspace() {
    let v = linspace(fx(0.0), fx(1.0), 5);
    assert_eq!(v.len(), 5);
    assert!((to_f64(&v[0]) - 0.0).abs() < 1e-12);
    assert!((to_f64(&v[4]) - 1.0).abs() < 1e-12);
    assert!((to_f64(&v[2]) - 0.5).abs() < 1e-12);
}

#[test]
fn test_table_data() {
    let xs = x_table();
    let ys = y_table();
    assert_eq!(xs.len(), 9);
    assert_eq!(ys.len(), 9);
    assert_eq!(xs[0], fx(1.0));
    assert_eq!(ys[8], fx(91.0));
}

#[test]
fn test_table_plot_series() {
    let (xs, ys) = problem_table_plot();
    assert_eq!(xs.len(), 9);
    assert_eq!(ys.len(), 9);
    assert_eq!(xs[4], fx(5.0));
    assert_eq!(ys[0], fx(3.0));
}

#[test]
fn test_non_smooth_values() {
    let (xs, ys) = problem_non_smooth(7);
    assert_eq!(xs.len(), 7);
    assert_eq!(ys.len(), 7);
    // x = -1.5, -1.0, -0.5, 0.0, 0.5, 1.0, 1.5
    assert_eq!(xs[0], fx(-1.5));
    assert_eq!(xs[6], fx(1.5));
    // |x| * |x - 1| * |x + 1| at those points
    assert_eq!(ys[0], fx(1.875));
    assert_eq!(ys[1], fx(0.0));
    assert_eq!(ys[2], fx(0.375));
    assert_eq!(ys[3], fx(0.0));
    assert_eq!(ys[5], fx(0.0));
    assert_eq!(ys[6], fx(1.875));
}

#[test]
fn test_piecewise_values() {
    let (xs, ys) = problem_piecewise(5);
    // x = -1.5, -0.5, 0.5, 1.5, 2.5
    assert_eq!(xs[0], fx(-1.5));
    assert_eq!(xs[2], fx(0.5));
    assert_eq!(ys[0], fx(0.0));
    assert_eq!(ys[1], fx(0.0));
    assert_eq!(ys[2], fx(1.0));
    assert_eq!(ys[3], fx(0.6));
    assert_eq!(ys[4], fx(0.6));
}

#[test]
fn test_rational_values() {
    let (xs, ys) = problem_rational(4);
    // x = -1, 0, 1, 2; denominators 2, 0, 0, 2
    assert_eq!(xs.len(), 4);
    assert_eq!(ys[0], fx(0.5));
    assert!(ys[1].is_nan());
    assert!(ys[2].is_nan());
    assert_eq!(ys[3], fx(0.5));
}

#[test]
fn test_rational_clamps_near_pole() {
    // x close to the pole at 0: denominator tiny but above the cutoff,
    // so the huge quotient is clamped to the cap.
    let (_, ys) = problem_rational(3001);
    // xs run over [-1, 2] in steps of 0.001; index 999 is x = -0.001,
    // where 1/(x^2 - x) is about 999 before clamping.
    assert_eq!(ys[999], fx(10.0));
}
