use optimization_eg551_practical::common::fixed::Fixed;

fn fx(v: f64) -> Fixed {
    Fixed::from_units(v < 0.0, (v.abs() * 1e15).round() as u128)
}

fn pos_inf() -> Fixed {
    Fixed::Inf { neg: false }
}

fn neg_inf() -> Fixed {
    Fixed::Inf { neg: true }
}

#[test]
fn addition_basics() {
    assert_eq!(fx(1.5).add(fx(2.25)), fx(3.75));
    assert_eq!(fx(1.5).add(fx(-2.0)), fx(-0.5));
    assert_eq!(fx(1.0).sub(fx(1.0)), fx(0.0));
    // the difference of equal values is the canonical, non-negative zero
    assert!(matches!(fx(1.0).sub(fx(1.0)), Fixed::Num { neg: false, mag: 0 }));
}

#[test]
fn multiplication_and_division_basics() {
    assert_eq!(fx(1.5).mul(fx(2.5)), fx(3.75));
    assert_eq!(fx(-3.0).mul(fx(2.0)), fx(-6.0));
    assert_eq!(fx(1.0).div(fx(4.0)), fx(0.25));
    assert_eq!(fx(-1.0).div(fx(4.0)), fx(-0.25));
}

#[test]
fn infinity_rules() {
    assert_eq!(pos_inf().add(fx(1.0)), pos_inf());
    assert!(pos_inf().add(neg_inf()).is_nan());
    assert!(pos_inf().mul(fx(0.0)).is_nan());
    assert_eq!(pos_inf().mul(fx(-2.0)), neg_inf());
    assert!(pos_inf().div(pos_inf()).is_nan());
    assert_eq!(fx(1.0).div(pos_inf()), fx(0.0));
}

#[test]
fn division_by_zero() {
    assert_eq!(fx(1.0).div(fx(0.0)), pos_inf());
    assert_eq!(fx(-1.0).div(fx(0.0)), neg_inf());
    assert!(fx(0.0).div(fx(0.0)).is_nan());
}

#[test]
fn not_a_number_propagates() {
    let nan = Fixed::NotANum;
    assert!(nan.add(fx(1.0)).is_nan());
    assert!(fx(1.0).sub(nan).is_nan());
    assert!(nan.mul(fx(2.0)).is_nan());
    assert!(nan.div(fx(2.0)).is_nan());
    assert!(nan.abs().is_nan());
}

#[test]
fn comparisons_with_nan_are_false() {
    let nan = Fixed::NotANum;
    assert!(!nan.lt(fx(1.0)));
    assert!(!fx(1.0).lt(nan));
    assert!(!nan.lt(nan));
}

#[test]
fn comparison_ordering() {
    assert!(fx(-2.0).lt(fx(1.0)));
    assert!(!fx(1.0).lt(fx(-2.0)));
    assert!(!fx(1.0).lt(fx(1.0)));
    assert!(neg_inf().lt(fx(-9999.0)));
    assert!(fx(9999.0).lt(pos_inf()));
    assert!(neg_inf().lt(pos_inf()));
    assert!(!pos_inf().lt(pos_inf()));
    // negative zero built by hand compares equal to canonical zero
    let neg_zero = Fixed::Num { neg: true, mag: 0 };
    assert!(!neg_zero.lt(fx(0.0)));
    assert!(!fx(0.0).lt(neg_zero));
}

#[test]
fn overflow_saturates_to_infinity() {
    assert_eq!(fx(9999.0).mul(fx(9999.0)), pos_inf());
    assert_eq!(fx(-9999.0).mul(fx(9999.0)), neg_inf());
    assert_eq!(fx(9999.0).add(fx(9999.0)), pos_inf());
    assert_eq!(fx(1.0).div(fx(0.00001)), pos_inf());
}

#[test]
fn absolute_value() {
    assert_eq!(fx(-1.25).abs(), fx(1.25));
    assert_eq!(fx(1.25).abs(), fx(1.25));
    assert_eq!(neg_inf().abs(), pos_inf());
}
