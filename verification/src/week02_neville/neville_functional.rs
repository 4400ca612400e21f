//! Functional-style Neville's interpolation algorithm (no early
//! termination): the pyramid is assembled row by row through small
//! helper functions, each with its own contract.

use vstd::prelude::*;
use crate::common::fixed::Fixed;
use super::types::NevilleResult;
use super::types::all_wf;
use super::types::deltas_spec;
use super::types::entry_spec;
use super::types::neville_post;
use super::types::points_wf;
use super::types::row_spec;
use super::types::xs_of;
use super::types::ys_of;

verus! {

/// Compute polynomial interpolation using Neville's algorithm.
pub fn neville_functional(points: &Vec<(Fixed, Fixed)>, x_target: Fixed) -> (r: NevilleResult)
    requires
        points_wf(points@),
        x_target.wf(),
    ensures
        neville_post(points@, x_target, r),
{
    let ghost xs = xs_of(points@);
    let ghost ys = ys_of(points@);
    if points.len() == 0 {
        let r = NevilleResult { value: Fixed::NotANum, pyramid: Vec::new(), deltas: Vec::new() };
        proof {
            assert(r.deltas@ =~= deltas_spec(xs, ys, x_target));
        }
        return r;
    }

    let n = points.len();
    let mut x_vals: Vec<Fixed> = Vec::new();
    let mut first_column: Vec<Fixed> = Vec::new();
    let mut idx: usize = 0;
    while idx < n
        invariant
            idx <= n,
            n == points@.len(),
            x_vals@.len() == idx,
            first_column@.len() == idx,
            forall|j: int| 0 <= j < idx ==> x_vals@[j] == points@[j].0,
            forall|j: int| 0 <= j < idx ==> first_column@[j] == points@[j].1,
        decreases n - idx,
    {
        x_vals.push(points[idx].0);
        first_column.push(points[idx].1);
        idx = idx + 1;
    }
    proof {
        assert(x_vals@ =~= xs);
        assert(first_column@ =~= ys);
        assert(all_wf(xs));
        assert(all_wf(ys));
    }

    let pyramid = build_pyramid(&x_vals, first_column, x_target);
    let deltas = compute_deltas(&pyramid);
    let value = if pyramid.len() == 0 {
        Fixed::NotANum
    } else {
        let last = &pyramid[pyramid.len() - 1];
        last[0]
    };

    proof {
        assert(deltas@ =~= deltas_spec(xs, ys, x_target));
    }
    NevilleResult { value, pyramid, deltas }
}

/// Build the triangular pyramid of intermediate values: row 0 is the
/// given first column, and each following row applies the recurrence.
fn build_pyramid(x_vals: &Vec<Fixed>, first_column: Vec<Fixed>, x_target: Fixed) -> (py: Vec<
    Vec<Fixed>,
>)
    requires
        all_wf(x_vals@),
        all_wf(first_column@),
        x_target.wf(),
        x_vals@.len() == first_column@.len(),
    ensures
        first_column@.len() == 0 ==> py@.len() == 0,
        first_column@.len() > 0 ==> py@.len() == first_column@.len(),
        forall|k: int|
            0 <= k < py@.len() ==> (#[trigger] py@[k])@ == row_spec(
                x_vals@,
                first_column@,
                x_target,
                k,
            ),
        forall|k: int|
            0 <= k < py@.len() ==> (#[trigger] py@[k])@.len() == first_column@.len() - k,
        forall|k: int| 0 <= k < py@.len() ==> all_wf((#[trigger] py@[k])@),
{
    let ghost ys = first_column@;
    let n = first_column.len();
    if n == 0 {
        return Vec::new();
    }

    let mut pyramid: Vec<Vec<Fixed>> = Vec::new();
    pyramid.push(first_column);
    let mut k: usize = 1;
    while k < n
        invariant
            1 <= k <= n,
            n == ys.len(),
            x_vals@.len() == n,
            all_wf(x_vals@),
            x_target.wf(),
            pyramid@.len() == k,
            forall|j: int|
                0 <= j < k ==> (#[trigger] pyramid@[j])@ == row_spec(x_vals@, ys, x_target, j),
            forall|j: int| 0 <= j < k ==> (#[trigger] pyramid@[j])@.len() == n - j,
            forall|j: int| 0 <= j < k ==> all_wf((#[trigger] pyramid@[j])@),
        decreases n - k,
    {
        let prev = &pyramid[k - 1];
        let next_column = compute_column(x_vals, prev, x_target, k);
        proof {
            assert(next_column@ =~= row_spec(x_vals@, ys, x_target, k as int));
        }
        pyramid.push(next_column);
        k = k + 1;
    }
    pyramid
}

/// Compute a single row of the pyramid from the previous one.
fn compute_column(x_vals: &Vec<Fixed>, prev: &Vec<Fixed>, x_target: Fixed, k: usize) -> (col: Vec<
    Fixed,
>)
    requires
        all_wf(x_vals@),
        all_wf(prev@),
        x_target.wf(),
        prev@.len() >= 1,
        prev@.len() + k <= x_vals@.len() + 1,
    ensures
        col@.len() == prev@.len() - 1,
        forall|i: int|
            0 <= i < col@.len() ==> col@[i] == entry_spec(
                x_vals@,
                x_target,
                prev@,
                i,
                k as int,
            ),
        all_wf(col@),
{
    let stop = prev.len() - 1;
    let mut col: Vec<Fixed> = Vec::new();
    let mut i: usize = 0;
    while i < stop
        invariant
            stop == prev@.len() - 1,
            prev@.len() + k <= x_vals@.len() + 1,
            all_wf(x_vals@),
            all_wf(prev@),
            x_target.wf(),
            i <= stop,
            col@.len() == i,
            forall|m: int|
                0 <= m < i ==> col@[m] == entry_spec(x_vals@, x_target, prev@, m, k as int),
            all_wf(col@),
        decreases stop - i,
    {
        col.push(neville_formula(x_vals, prev, x_target, i, k));
        i = i + 1;
    }
    col
}

/// Apply Neville's recursive formula for `P_{i,i+k}`.
fn neville_formula(x_vals: &Vec<Fixed>, prev: &Vec<Fixed>, x_target: Fixed, i: usize, k: usize) -> (r:
    Fixed)
    requires
        all_wf(x_vals@),
        all_wf(prev@),
        x_target.wf(),
        i + 1 < prev@.len(),
        i + k < x_vals@.len(),
    ensures
        r == entry_spec(x_vals@, x_target, prev@, i as int, k as int),
        r.wf(),
{
    let nx = x_vals.len();
    let np = prev.len();
    assert(i + k < nx && i + 1 < np);
    let x_i = x_vals[i];
    let x_j = x_vals[i + k];
    let denominator = x_j.sub(x_i);

    let p_left = prev[i];  // P_{i, i+k-1}
    let p_right = prev[i + 1];  // P_{i+1, i+k}

    x_target.sub(x_i).mul(p_right).sub(x_target.sub(x_j).mul(p_left)).div(denominator)
}

/// Compute deltas between successive row top values.
fn compute_deltas(pyramid: &Vec<Vec<Fixed>>) -> (d: Vec<Fixed>)
    requires
        forall|j: int| 0 <= j < pyramid@.len() ==> (#[trigger] pyramid@[j])@.len() >= 1,
        forall|j: int| 0 <= j < pyramid@.len() ==> all_wf((#[trigger] pyramid@[j])@),
    ensures
        d@.len() == (if pyramid@.len() < 2 { 0int } else { pyramid@.len() - 1 }),
        forall|i: int|
            0 <= i < d@.len() ==> d@[i] == crate::common::fixed::abs_spec(
                crate::common::fixed::sub_spec(pyramid@[i + 1]@[0], pyramid@[i]@[0]),
            ),
        all_wf(d@),
{
    if pyramid.len() < 2 {
        return Vec::new();
    }

    let n = pyramid.len();
    let mut d: Vec<Fixed> = Vec::new();
    let mut i: usize = 0;
    while i < n - 1
        invariant
            2 <= n == pyramid@.len(),
            forall|j: int| 0 <= j < n ==> (#[trigger] pyramid@[j])@.len() >= 1,
            forall|j: int| 0 <= j < n ==> all_wf((#[trigger] pyramid@[j])@),
            i <= n - 1,
            d@.len() == i,
            forall|m: int|
                0 <= m < i ==> d@[m] == crate::common::fixed::abs_spec(
                    crate::common::fixed::sub_spec(pyramid@[m + 1]@[0], pyramid@[m]@[0]),
                ),
            all_wf(d@),
        decreases n - 1 - i,
    {
        let hi = &pyramid[i + 1];
        let hi0 = hi[0];
        let lo = &pyramid[i];
        let lo0 = lo[0];
        d.push(hi0.sub(lo0).abs());
        i = i + 1;
    }
    d
}

} // verus!
