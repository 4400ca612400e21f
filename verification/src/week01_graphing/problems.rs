//! Tutorial sheet graphing problems: the sampled data series.
//!
//! Each problem computes an `(x, y)` series over a fixed domain; the
//! presentation layer turns the series into plots and delimited text.
//! The reciprocal-sine exercise needs a trigonometric evaluation that
//! the fixed-point kernel does not provide, so it lives with the
//! presentation layer.

use vstd::prelude::*;
use crate::common::fixed::Fixed;
use crate::common::fixed::SCALE;
use crate::common::fixed::abs_spec;
use crate::common::fixed::add_spec;
use crate::common::fixed::div_spec;
use crate::common::fixed::lt_spec;
use crate::common::fixed::mul_spec;
use crate::common::fixed::sub_spec;
use crate::common::fixed::whole_spec;

verus! {

/// Largest sample count the whole-number conversion in `linspace`
/// supports.
pub const MAX_SAMPLES: usize = 10_000;

/// Fixed x-coordinates of the tutorial table.
pub open spec fn x_table_spec() -> Seq<Fixed> {
    seq![
        whole_spec(false, 1),
        whole_spec(false, 2),
        whole_spec(false, 3),
        whole_spec(false, 4),
        whole_spec(false, 5),
        whole_spec(false, 6),
        whole_spec(false, 7),
        whole_spec(false, 8),
        whole_spec(false, 9),
    ]
}

/// Fixed y-coordinates of the tutorial table.
pub open spec fn y_table_spec() -> Seq<Fixed> {
    seq![
        whole_spec(false, 3),
        whole_spec(false, 7),
        whole_spec(false, 13),
        whole_spec(false, 21),
        whole_spec(false, 31),
        whole_spec(false, 43),
        whole_spec(false, 57),
        whole_spec(false, 73),
        whole_spec(false, 91),
    ]
}

/// The table's x-values as a vector.
pub fn x_table() -> (r: Vec<Fixed>)
    ensures
        r@ == x_table_spec(),
{
    let mut r: Vec<Fixed> = Vec::new();
    r.push(Fixed::from_whole(false, 1));
    r.push(Fixed::from_whole(false, 2));
    r.push(Fixed::from_whole(false, 3));
    r.push(Fixed::from_whole(false, 4));
    r.push(Fixed::from_whole(false, 5));
    r.push(Fixed::from_whole(false, 6));
    r.push(Fixed::from_whole(false, 7));
    r.push(Fixed::from_whole(false, 8));
    r.push(Fixed::from_whole(false, 9));
    proof {
        assert(r@ =~= x_table_spec());
    }
    r
}

/// The table's y-values as a vector.
pub fn y_table() -> (r: Vec<Fixed>)
    ensures
        r@ == y_table_spec(),
{
    let mut r: Vec<Fixed> = Vec::new();
    r.push(Fixed::from_whole(false, 3));
    r.push(Fixed::from_whole(false, 7));
    r.push(Fixed::from_whole(false, 13));
    r.push(Fixed::from_whole(false, 21));
    r.push(Fixed::from_whole(false, 31));
    r.push(Fixed::from_whole(false, 43));
    r.push(Fixed::from_whole(false, 57));
    r.push(Fixed::from_whole(false, 73));
    r.push(Fixed::from_whole(false, 91));
    proof {
        assert(r@ =~= y_table_spec());
    }
    r
}

/// The step of an `n`-point even subdivision of `[start, end]`.
pub open spec fn linspace_step(start: Fixed, end: Fixed, n: int) -> Fixed {
    div_spec(sub_spec(end, start), whole_spec(false, n - 1))
}

/// Point `i` of an `n`-point even subdivision of `[start, end]`.
pub open spec fn linspace_at(start: Fixed, end: Fixed, n: int, i: int) -> Fixed {
    add_spec(start, mul_spec(whole_spec(false, i), linspace_step(start, end, n)))
}

/// Generate `n` evenly spaced values in `[start, end]`.
pub fn linspace(start: Fixed, end: Fixed, n: usize) -> (r: Vec<Fixed>)
    requires
        start.wf(),
        end.wf(),
        2 <= n <= MAX_SAMPLES,
    ensures
        r@.len() == n,
        forall|i: int| 0 <= i < n ==> r@[i] == linspace_at(start, end, n as int, i),
        forall|i: int| 0 <= i < n ==> (#[trigger] r@[i]).wf(),
{
    let step = end.sub(start).div(Fixed::from_whole(false, (n - 1) as u128));
    let mut r: Vec<Fixed> = Vec::new();
    let mut i: usize = 0;
    while i < n
        invariant
            start.wf(),
            end.wf(),
            2 <= n <= MAX_SAMPLES,
            step == linspace_step(start, end, n as int),
            step.wf(),
            i <= n,
            r@.len() == i,
            forall|j: int| 0 <= j < i ==> r@[j] == linspace_at(start, end, n as int, j),
            forall|j: int| 0 <= j < i ==> (#[trigger] r@[j]).wf(),
        decreases n - i,
    {
        r.push(start.add(Fixed::from_whole(false, i as u128).mul(step)));
        i = i + 1;
    }
    r
}

/// The tutorial table data: the `(x, y)` series to plot and export.
pub fn problem_table_plot() -> (r: (Vec<Fixed>, Vec<Fixed>))
    ensures
        r.0@ == x_table_spec(),
        r.1@ == y_table_spec(),
{
    (x_table(), y_table())
}

/// The value `|x| * |x - 1| * |x + 1|`.
pub open spec fn non_smooth_spec(x: Fixed) -> Fixed {
    let one = whole_spec(false, 1);
    mul_spec(mul_spec(abs_spec(x), abs_spec(sub_spec(x, one))), abs_spec(add_spec(x, one)))
}

/// The non-smooth product `|x| * |x - 1| * |x + 1|` sampled over
/// `[-1.5, 1.5]`.
pub fn problem_non_smooth(n: usize) -> (r: (Vec<Fixed>, Vec<Fixed>))
    requires
        2 <= n <= MAX_SAMPLES,
    ensures
        r.0@.len() == n,
        r.1@.len() == n,
        forall|i: int|
            0 <= i < n ==> r.0@[i] == linspace_at(
                Fixed::Num { neg: true, mag: (SCALE + SCALE / 2) as u128 },
                Fixed::Num { neg: false, mag: (SCALE + SCALE / 2) as u128 },
                n as int,
                i,
            ),
        forall|i: int| 0 <= i < n ==> r.1@[i] == non_smooth_spec(r.0@[i]),
{
    let lo = Fixed::from_units(true, SCALE + SCALE / 2);
    let hi = Fixed::from_units(false, SCALE + SCALE / 2);
    let xs = linspace(lo, hi, n);
    let one = Fixed::from_whole(false, 1);
    let mut ys: Vec<Fixed> = Vec::new();
    let mut i: usize = 0;
    while i < n
        invariant
            n == xs@.len(),
            one == whole_spec(false, 1),
            one.wf(),
            forall|j: int| 0 <= j < n ==> (#[trigger] xs@[j]).wf(),
            i <= n,
            ys@.len() == i,
            forall|j: int| 0 <= j < i ==> ys@[j] == non_smooth_spec(xs@[j]),
        decreases n - i,
    {
        let x = xs[i];
        ys.push(x.abs().mul(x.sub(one).abs()).mul(x.add(one).abs()));
        i = i + 1;
    }
    (xs, ys)
}

/// The piecewise rule: 0 for x < 0, 1 for 0 <= x < 1, 0.6 past that.
pub open spec fn piecewise_spec(x: Fixed) -> Fixed {
    let zero = Fixed::Num { neg: false, mag: 0 };
    let one = whole_spec(false, 1);
    if lt_spec(x, zero) {
        zero
    } else if lt_spec(x, one) {
        one
    } else {
        Fixed::Num { neg: false, mag: (SCALE / 2 + SCALE / 10) as u128 }
    }
}

/// The piecewise discontinuous function sampled over `[-1.5, 2.5]`.
pub fn problem_piecewise(n: usize) -> (r: (Vec<Fixed>, Vec<Fixed>))
    requires
        2 <= n <= MAX_SAMPLES,
    ensures
        r.0@.len() == n,
        r.1@.len() == n,
        forall|i: int|
            0 <= i < n ==> r.0@[i] == linspace_at(
                Fixed::Num { neg: true, mag: (SCALE + SCALE / 2) as u128 },
                Fixed::Num { neg: false, mag: (2 * SCALE + SCALE / 2) as u128 },
                n as int,
                i,
            ),
        forall|i: int| 0 <= i < n ==> r.1@[i] == piecewise_spec(r.0@[i]),
{
    let lo = Fixed::from_units(true, SCALE + SCALE / 2);
    let hi = Fixed::from_units(false, 2 * SCALE + SCALE / 2);
    let xs = linspace(lo, hi, n);
    let zero = Fixed::from_units(false, 0);
    let one = Fixed::from_whole(false, 1);
    let plateau = Fixed::from_units(false, SCALE / 2 + SCALE / 10);
    let mut ys: Vec<Fixed> = Vec::new();
    let mut i: usize = 0;
    while i < n
        invariant
            n == xs@.len(),
            zero == (Fixed::Num { neg: false, mag: 0 }),
            one == whole_spec(false, 1),
            plateau == (Fixed::Num { neg: false, mag: (SCALE / 2 + SCALE / 10) as u128 }),
            i <= n,
            ys@.len() == i,
            forall|j: int| 0 <= j < i ==> ys@[j] == piecewise_spec(xs@[j]),
        decreases n - i,
    {
        let x = xs[i];
        let y = if x.lt(zero) {
            zero
        } else if x.lt(one) {
            one
        } else {
            plateau
        };
        ys.push(y);
        i = i + 1;
    }
    (xs, ys)
}

/// Clamp `v` into `[lo, hi]`; a not-a-number value stays as it is.
pub open spec fn clamp_spec(v: Fixed, lo: Fixed, hi: Fixed) -> Fixed {
    if lt_spec(v, lo) {
        lo
    } else if lt_spec(hi, v) {
        hi
    } else {
        v
    }
}

/// The rational rule: `1 / (x^2 - x)` clamped to `[-10, 10]`, and
/// not-a-number where the denominator is within 1e-12 of zero.
pub open spec fn rational_spec(x: Fixed) -> Fixed {
    let one = whole_spec(false, 1);
    let tiny = Fixed::Num { neg: false, mag: 1_000 };
    let denom = sub_spec(mul_spec(x, x), x);
    if lt_spec(abs_spec(denom), tiny) {
        Fixed::NotANum
    } else {
        clamp_spec(div_spec(one, denom), whole_spec(true, 10), whole_spec(false, 10))
    }
}

/// The rational function `1 / (x^2 - x)` sampled over `[-1, 2]`, with
/// the y-range clamped to `[-10, 10]`.
pub fn problem_rational(n: usize) -> (r: (Vec<Fixed>, Vec<Fixed>))
    requires
        2 <= n <= MAX_SAMPLES,
    ensures
        r.0@.len() == n,
        r.1@.len() == n,
        forall|i: int|
            0 <= i < n ==> r.0@[i] == linspace_at(
                whole_spec(true, 1),
                whole_spec(false, 2),
                n as int,
                i,
            ),
        forall|i: int| 0 <= i < n ==> r.1@[i] == rational_spec(r.0@[i]),
{
    let lo = Fixed::from_whole(true, 1);
    let hi = Fixed::from_whole(false, 2);
    let xs = linspace(lo, hi, n);
    let one = Fixed::from_whole(false, 1);
    let tiny = Fixed::from_units(false, 1_000);
    let neg_cap = Fixed::from_whole(true, 10);
    let pos_cap = Fixed::from_whole(false, 10);
    let mut ys: Vec<Fixed> = Vec::new();
    let mut i: usize = 0;
    while i < n
        invariant
            n == xs@.len(),
            one == whole_spec(false, 1),
            one.wf(),
            tiny == (Fixed::Num { neg: false, mag: 1_000 }),
            tiny.wf(),
            neg_cap == whole_spec(true, 10),
            neg_cap.wf(),
            pos_cap == whole_spec(false, 10),
            pos_cap.wf(),
            forall|j: int| 0 <= j < n ==> (#[trigger] xs@[j]).wf(),
            i <= n,
            ys@.len() == i,
            forall|j: int| 0 <= j < i ==> ys@[j] == rational_spec(xs@[j]),
        decreases n - i,
    {
        let x = xs[i];
        let denom = x.mul(x).sub(x);
        let y = if denom.abs().lt(tiny) {
            Fixed::NotANum
        } else {
            let v = one.div(denom);
            if v.lt(neg_cap) {
                neg_cap
            } else if pos_cap.lt(v) {
                pos_cap
            } else {
                v
            }
        };
        ys.push(y);
        i = i + 1;
    }
    (xs, ys)
}

} // verus!
