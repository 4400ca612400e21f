//! A saturating fixed-point number kernel.
//!
//! The numerical algorithms in this crate work on `Fixed`: a signed
//! fixed-point value with `SCALE` units per 1.0, extended with signed
//! infinities and a not-a-number value so that singular operations
//! (division by zero, over-large magnitudes) propagate sentinel values
//! through a computation instead of failing.

use vstd::prelude::*;

verus! {

/// Number of fixed-point units that represent the value 1.0.
pub const SCALE: u128 = 1_000_000_000_000_000;

/// Largest magnitude, in units, that a finite `Fixed` value may carry.
/// Operations whose exact result would exceed this saturate to an infinity.
pub const MAX_MAG: u128 = 10_000_000_000_000_000_000;

/// A signed fixed-point number, a signed infinity, or a not-a-number value.
///
/// A finite value `Num { neg, mag }` stands for `mag / SCALE`, negated when
/// `neg` is set. Zero is canonically non-negative.
#[derive(Debug, Clone, Copy, PartialEq, Eq, Structural)]
pub enum Fixed {
    Num { neg: bool, mag: u128 },
    Inf { neg: bool },
    NotANum,
}

impl Fixed {
    /// Well-formed values: finite magnitudes are bounded by `MAX_MAG`
    /// and zero carries a positive sign.
    pub open spec fn wf(self) -> bool {
        match self {
            Fixed::Num { neg, mag } => mag <= MAX_MAG && (mag == 0 ==> !neg),
            _ => true,
        }
    }

    /// The signed value, in units, of a finite `Fixed`.
    pub open spec fn val(self) -> int
        recommends
            self is Num,
    {
        match self {
            Fixed::Num { neg, mag } => if neg { -(mag as int) } else { mag as int },
            _ => 0,
        }
    }
}

/// The absolute value of a mathematical integer.
pub open spec fn abs_int(v: int) -> int {
    if v < 0 { -v } else { v }
}

/// The canonical `Fixed` with the given sign and magnitude in units:
/// saturates to an infinity past `MAX_MAG` and normalizes zero.
pub open spec fn mk_spec(neg: bool, mag: int) -> Fixed {
    if mag > MAX_MAG {
        Fixed::Inf { neg }
    } else if mag == 0 {
        Fixed::Num { neg: false, mag: 0 }
    } else {
        Fixed::Num { neg, mag: mag as u128 }
    }
}

/// The canonical finite-or-saturated `Fixed` holding `v` units.
pub open spec fn fin_spec(v: int) -> Fixed {
    mk_spec(v < 0, abs_int(v))
}

/// Exact meaning of addition, including infinity and not-a-number rules.
pub open spec fn add_spec(a: Fixed, b: Fixed) -> Fixed {
    match (a, b) {
        (Fixed::NotANum, _) => Fixed::NotANum,
        (_, Fixed::NotANum) => Fixed::NotANum,
        (Fixed::Inf { neg: sa }, Fixed::Inf { neg: sb }) => {
            if sa == sb { Fixed::Inf { neg: sa } } else { Fixed::NotANum }
        },
        (Fixed::Inf { neg }, _) => Fixed::Inf { neg },
        (_, Fixed::Inf { neg }) => Fixed::Inf { neg },
        (Fixed::Num { .. }, Fixed::Num { .. }) => fin_spec(a.val() + b.val()),
    }
}

/// Exact meaning of negation; negated zero stays canonical.
pub open spec fn neg_spec(a: Fixed) -> Fixed {
    match a {
        Fixed::NotANum => Fixed::NotANum,
        Fixed::Inf { neg } => Fixed::Inf { neg: !neg },
        Fixed::Num { neg, mag } => mk_spec(!neg, mag as int),
    }
}

/// Exact meaning of subtraction: addition of the negated argument.
pub open spec fn sub_spec(a: Fixed, b: Fixed) -> Fixed {
    add_spec(a, neg_spec(b))
}

/// Exact meaning of multiplication; finite products truncate toward zero
/// at `SCALE` resolution, and an infinity times zero is not a number.
pub open spec fn mul_spec(a: Fixed, b: Fixed) -> Fixed {
    match (a, b) {
        (Fixed::NotANum, _) => Fixed::NotANum,
        (_, Fixed::NotANum) => Fixed::NotANum,
        (Fixed::Inf { neg: sa }, Fixed::Inf { neg: sb }) => Fixed::Inf { neg: sa != sb },
        (Fixed::Inf { neg: sa }, Fixed::Num { neg: sb, mag: mb }) => {
            if mb == 0 { Fixed::NotANum } else { Fixed::Inf { neg: sa != sb } }
        },
        (Fixed::Num { neg: sa, mag: ma }, Fixed::Inf { neg: sb }) => {
            if ma == 0 { Fixed::NotANum } else { Fixed::Inf { neg: sa != sb } }
        },
        (Fixed::Num { neg: sa, mag: ma }, Fixed::Num { neg: sb, mag: mb }) => {
            mk_spec(sa != sb, (ma as int * mb as int) / (SCALE as int))
        },
    }
}

/// Exact meaning of division; division by zero yields an infinity (or
/// not-a-number for zero over zero), division by an infinity yields zero.
pub open spec fn div_spec(a: Fixed, b: Fixed) -> Fixed {
    match (a, b) {
        (Fixed::NotANum, _) => Fixed::NotANum,
        (_, Fixed::NotANum) => Fixed::NotANum,
        (Fixed::Inf { .. }, Fixed::Inf { .. }) => Fixed::NotANum,
        (Fixed::Inf { neg: sa }, Fixed::Num { neg: sb, mag: mb }) => Fixed::Inf { neg: sa != sb },
        (Fixed::Num { .. }, Fixed::Inf { .. }) => Fixed::Num { neg: false, mag: 0 },
        (Fixed::Num { neg: sa, mag: ma }, Fixed::Num { neg: sb, mag: mb }) => {
            if mb == 0 {
                if ma == 0 { Fixed::NotANum } else { Fixed::Inf { neg: sa != sb } }
            } else {
                mk_spec(sa != sb, (ma as int * SCALE as int) / (mb as int))
            }
        },
    }
}

/// Exact meaning of the absolute value.
pub open spec fn abs_spec(a: Fixed) -> Fixed {
    match a {
        Fixed::NotANum => Fixed::NotANum,
        Fixed::Inf { .. } => Fixed::Inf { neg: false },
        Fixed::Num { neg, mag } => Fixed::Num { neg: false, mag },
    }
}

/// Exact meaning of the strict order: any comparison against a
/// not-a-number value is false, and infinities bound all finite values.
pub open spec fn lt_spec(a: Fixed, b: Fixed) -> bool {
    match (a, b) {
        (Fixed::NotANum, _) => false,
        (_, Fixed::NotANum) => false,
        (Fixed::Inf { neg: sa }, Fixed::Inf { neg: sb }) => sa && !sb,
        (Fixed::Inf { neg: sa }, Fixed::Num { .. }) => sa,
        (Fixed::Num { .. }, Fixed::Inf { neg: sb }) => !sb,
        (Fixed::Num { .. }, Fixed::Num { .. }) => a.val() < b.val(),
    }
}

/// The `Fixed` value of the whole number `n`, negated when `neg` is set.
pub open spec fn whole_spec(neg: bool, n: int) -> Fixed {
    mk_spec(neg, n * (SCALE as int))
}

impl Fixed {
    /// Builds the `Fixed` value of a whole number.
    pub fn from_whole(neg: bool, n: u128) -> (r: Fixed)
        requires
            n <= MAX_MAG / SCALE,
        ensures
            r == whole_spec(neg, n as int),
            r.wf(),
    {
        let mag = n * SCALE;
        Fixed::from_units(neg, mag)
    }

    /// Builds the canonical well-formed value with the given sign and
    /// magnitude in units.
    pub fn from_units(neg: bool, mag: u128) -> (r: Fixed)
        requires
            mag <= MAX_MAG,
        ensures
            r == mk_spec(neg, mag as int),
            r.wf(),
    {
        if mag == 0 {
            Fixed::Num { neg: false, mag: 0 }
        } else {
            Fixed::Num { neg, mag }
        }
    }

    /// True exactly when the value is the not-a-number sentinel.
    pub fn is_nan(&self) -> (r: bool)
        ensures
            r == (*self is NotANum),
    {
        match self {
            Fixed::NotANum => true,
            _ => false,
        }
    }

    /// Addition.
    pub fn add(self, other: Fixed) -> (r: Fixed)
        requires
            self.wf(),
            other.wf(),
        ensures
            r == add_spec(self, other),
            r.wf(),
    {
        match (self, other) {
            (Fixed::NotANum, _) => Fixed::NotANum,
            (_, Fixed::NotANum) => Fixed::NotANum,
            (Fixed::Inf { neg: sa }, Fixed::Inf { neg: sb }) => {
                if sa == sb { Fixed::Inf { neg: sa } } else { Fixed::NotANum }
            },
            (Fixed::Inf { neg }, _) => Fixed::Inf { neg },
            (_, Fixed::Inf { neg }) => Fixed::Inf { neg },
            (Fixed::Num { neg: sa, mag: ma }, Fixed::Num { neg: sb, mag: mb }) => {
                if sa == sb {
                    let m = ma + mb;
                    if m > MAX_MAG {
                        Fixed::Inf { neg: sa }
                    } else if m == 0 {
                        Fixed::Num { neg: false, mag: 0 }
                    } else {
                        Fixed::Num { neg: sa, mag: m }
                    }
                } else if ma >= mb {
                    let m = ma - mb;
                    if m == 0 {
                        Fixed::Num { neg: false, mag: 0 }
                    } else {
                        Fixed::Num { neg: sa, mag: m }
                    }
                } else {
                    Fixed::Num { neg: sb, mag: mb - ma }
                }
            },
        }
    }

    /// Negation.
    pub fn neg(self) -> (r: Fixed)
        requires
            self.wf(),
        ensures
            r == neg_spec(self),
            r.wf(),
    {
        match self {
            Fixed::NotANum => Fixed::NotANum,
            Fixed::Inf { neg } => Fixed::Inf { neg: !neg },
            Fixed::Num { neg, mag } => {
                if mag == 0 {
                    Fixed::Num { neg: false, mag: 0 }
                } else {
                    Fixed::Num { neg: !neg, mag }
                }
            },
        }
    }

    /// Subtraction.
    pub fn sub(self, other: Fixed) -> (r: Fixed)
        requires
            self.wf(),
            other.wf(),
        ensures
            r == sub_spec(self, other),
            r.wf(),
    {
        self.add(other.neg())
    }

    /// Absolute value.
    pub fn abs(self) -> (r: Fixed)
        requires
            self.wf(),
        ensures
            r == abs_spec(self),
            r.wf(),
    {
        match self {
            Fixed::NotANum => Fixed::NotANum,
            Fixed::Inf { .. } => Fixed::Inf { neg: false },
            Fixed::Num { neg: _, mag } => Fixed::Num { neg: false, mag },
        }
    }

    /// Multiplication, truncating toward zero at `SCALE` resolution.
    pub fn mul(self, other: Fixed) -> (r: Fixed)
        requires
            self.wf(),
            other.wf(),
        ensures
            r == mul_spec(self, other),
            r.wf(),
    {
        match (self, other) {
            (Fixed::NotANum, _) => Fixed::NotANum,
            (_, Fixed::NotANum) => Fixed::NotANum,
            (Fixed::Inf { neg: sa }, Fixed::Inf { neg: sb }) => Fixed::Inf { neg: sa != sb },
            (Fixed::Inf { neg: sa }, Fixed::Num { neg: sb, mag: mb }) => {
                if mb == 0 { Fixed::NotANum } else { Fixed::Inf { neg: sa != sb } }
            },
            (Fixed::Num { neg: sa, mag: ma }, Fixed::Inf { neg: sb }) => {
                if ma == 0 { Fixed::NotANum } else { Fixed::Inf { neg: sa != sb } }
            },
            (Fixed::Num { neg: sa, mag: ma }, Fixed::Num { neg: sb, mag: mb }) => {
                assert(ma as int * mb as int <= MAX_MAG as int * MAX_MAG as int)
                    by (nonlinear_arith)
                    requires
                        ma <= MAX_MAG,
                        mb <= MAX_MAG,
                ;
                let p = ma * mb;
                let m = p / SCALE;
                let s = sa != sb;
                if m > MAX_MAG {
                    Fixed::Inf { neg: s }
                } else if m == 0 {
                    Fixed::Num { neg: false, mag: 0 }
                } else {
                    Fixed::Num { neg: s, mag: m }
                }
            },
        }
    }

    /// Division, truncating toward zero at `SCALE` resolution.
    pub fn div(self, other: Fixed) -> (r: Fixed)
        requires
            self.wf(),
            other.wf(),
        ensures
            r == div_spec(self, other),
            r.wf(),
    {
        match (self, other) {
            (Fixed::NotANum, _) => Fixed::NotANum,
            (_, Fixed::NotANum) => Fixed::NotANum,
            (Fixed::Inf { .. }, Fixed::Inf { .. }) => Fixed::NotANum,
            (Fixed::Inf { neg: sa }, Fixed::Num { neg: sb, mag: _ }) => {
                Fixed::Inf { neg: sa != sb }
            },
            (Fixed::Num { .. }, Fixed::Inf { .. }) => Fixed::Num { neg: false, mag: 0 },
            (Fixed::Num { neg: sa, mag: ma }, Fixed::Num { neg: sb, mag: mb }) => {
                let s = sa != sb;
                if mb == 0 {
                    if ma == 0 { Fixed::NotANum } else { Fixed::Inf { neg: s } }
                } else {
                    assert(ma as int * SCALE as int <= MAX_MAG as int * SCALE as int)
                        by (nonlinear_arith)
                        requires
                            ma <= MAX_MAG,
                    ;
                    let p = ma * SCALE;
                    let m = p / mb;
                    if m > MAX_MAG {
                        Fixed::Inf { neg: s }
                    } else if m == 0 {
                        Fixed::Num { neg: false, mag: 0 }
                    } else {
                        Fixed::Num { neg: s, mag: m }
                    }
                }
            },
        }
    }

    /// Strict less-than comparison; false whenever either side is
    /// not-a-number.
    pub fn lt(self, other: Fixed) -> (r: bool)
        ensures
            r == lt_spec(self, other),
    {
        match (self, other) {
            (Fixed::NotANum, _) => false,
            (_, Fixed::NotANum) => false,
            (Fixed::Inf { neg: sa }, Fixed::Inf { neg: sb }) => sa && !sb,
            (Fixed::Inf { neg: sa }, Fixed::Num { .. }) => sa,
            (Fixed::Num { .. }, Fixed::Inf { neg: sb }) => !sb,
            (Fixed::Num { neg: sa, mag: ma }, Fixed::Num { neg: sb, mag: mb }) => {
                if sa && sb {
                    mb < ma
                } else if !sa && !sb {
                    ma < mb
                } else if sa {
                    ma > 0 || mb > 0
                } else {
                    false
                }
            },
        }
    }
}

} // verus!
