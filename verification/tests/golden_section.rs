use optimization_eg551_practical::common::fixed::Fixed;
use optimization_eg551_practical::week03_golden_section::gss;
use optimization_eg551_practical::week03_golden_section::StoppingCriterion;

fn fx(v: f64) -> Fixed {
    Fixed::from_units(v < 0.0, (v.abs() * 1e15).round() as u128)
}

fn to_f64(v: &Fixed) -> f64 {
    match v {
        Fixed::Num { neg, mag } => {
            let m = *mag as f64 / 1e15;
            if *neg { -m } else { m }
        }
        Fixed::Inf { neg } => {
            if *neg { f64::NEG_INFINITY } else { f64::INFINITY }
        }
        Fixed::NotANum => f64::NAN,
    }
}

/// f(x) = x(x - 1) = x^2 - x, minimum at x = 0.5, f(0.5) = -0.25
fn f_quadratic(x: Fixed) -> Fixed {
    x.mul(x.sub(Fixed::from_whole(false, 1)))
}

#[test]
fn interval_width_converges_to_half() {
    let result = gss(f_quadratic, fx(0.0), fx(2.0), fx(0.01), 10000, StoppingCriterion::IntervalWidth);

    let midpoint = (to_f64(&result.x1) + to_f64(&result.x2)) / 2.0;
    assert!((midpoint - 0.5).abs() < 0.01, "midpoint={midpoint}");
    assert!(to_f64(&result.interval_width) < 0.01);
    assert!(result.iterations > 0);
}

#[test]
fn function_value_diff_converges_to_half() {
    let result = gss(
        f_quadratic,
        fx(0.0),
        fx(2.0),
        fx(1e-8),
        10000,
        StoppingCriterion::FunctionValueDiff,
    );

    let midpoint = (to_f64(&result.x1) + to_f64(&result.x2)) / 2.0;
    assert!((midpoint - 0.5).abs() < 1e-4, "midpoint={midpoint}");
    assert!(to_f64(&result.function_value_diff) < 1e-8);
}

#[test]
fn max_iter_is_respected() {
    let result = gss(f_quadratic, fx(0.0), fx(2.0), fx(1e-100), 5, StoppingCriterion::IntervalWidth);

    assert_eq!(result.iterations, 5);
}

#[test]
fn works_with_x_squared() {
    // f(x) = x^2, minimum at x = 0 on [-2, 3]
    let f = |x: Fixed| x.mul(x);
    let result = gss(f, fx(-2.0), fx(3.0), fx(0.001), 10000, StoppingCriterion::IntervalWidth);

    let midpoint = (to_f64(&result.x1) + to_f64(&result.x2)) / 2.0;
    assert!(midpoint.abs() < 0.01, "midpoint={midpoint}");
    assert!(to_f64(&result.interval_width) < 0.001);
}

#[test]
fn metrics_are_always_reported() {
    // Whichever criterion is active, both metrics come back and agree
    // with the final bracket and probe values.
    for criterion in [StoppingCriterion::IntervalWidth, StoppingCriterion::FunctionValueDiff] {
        let result = gss(f_quadratic, fx(0.0), fx(2.0), fx(0.01), 10000, criterion);
        assert_eq!(result.interval_width, result.b.sub(result.a));
        assert_eq!(result.function_value_diff, result.fx1.sub(result.fx2).abs());
    }
}

#[test]
fn bracket_width_shrinks_by_tau_each_iteration() {
    // With an unreachable epsilon, the k-iteration run exposes the
    // bracket width after k steps; each step shrinks it by about 0.618.
    let tau = 0.6180339887498949;
    let mut previous = 2.0;
    for k in 1..=10 {
        let result = gss(f_quadratic, fx(0.0), fx(2.0), fx(0.0), k, StoppingCriterion::IntervalWidth);
        assert_eq!(result.iterations, k);
        let width = to_f64(&result.interval_width);
        assert!(width < previous);
        assert!((width - tau * previous).abs() < 1e-9, "width={width} previous={previous}");
        previous = width;
    }
}

#[test]
fn zero_iteration_budget_reports_initial_bracket() {
    let result = gss(f_quadratic, fx(0.0), fx(2.0), fx(0.01), 0, StoppingCriterion::IntervalWidth);
    assert_eq!(result.iterations, 0);
    assert_eq!(result.a, fx(0.0));
    assert_eq!(result.b, fx(2.0));
    assert_eq!(result.interval_width, fx(2.0));
}

#[test]
fn ties_shrink_from_the_left() {
    // A constant function makes every probe comparison a tie; the
    // tie-break always takes the "raise a" branch, so the bracket's
    // right endpoint never moves.
    let f = |_x: Fixed| fx(1.0);
    let result = gss(f, fx(0.0), fx(2.0), fx(1e-100), 4, StoppingCriterion::FunctionValueDiff);
    assert_eq!(result.iterations, 4);
    assert_eq!(result.b, fx(2.0));
    assert!(to_f64(&result.a) > 0.0);
}
