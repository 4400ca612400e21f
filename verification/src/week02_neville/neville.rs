//! Neville's interpolation algorithm, imperative style.

use vstd::prelude::*;
use crate::common::fixed::Fixed;
use super::types::NevilleResult;
use super::types::all_wf;
use super::types::deltas_spec;
use super::types::entry_spec;
use super::types::neville_post;
use super::types::points_wf;
use super::types::row_spec;
use super::types::xs_of;
use super::types::ys_of;

verus! {

/// Computes the interpolating polynomial's value at `x_target` by
/// Neville's algorithm, returning the value together with the full
/// pyramid of intermediate approximations and the delta trace.
pub fn neville(points: &Vec<(Fixed, Fixed)>, x_target: Fixed) -> (r: NevilleResult)
    requires
        points_wf(points@),
        x_target.wf(),
    ensures
        neville_post(points@, x_target, r),
{
    let ghost xs = xs_of(points@);
    let ghost ys = ys_of(points@);
    if points.len() == 0 {
        let r = NevilleResult { value: Fixed::NotANum, pyramid: Vec::new(), deltas: Vec::new() };
        proof {
            assert(r.deltas@ =~= deltas_spec(xs, ys, x_target));
        }
        return r;
    }

    let n = points.len();
    let mut x_vals: Vec<Fixed> = Vec::new();
    let mut idx: usize = 0;
    while idx < n
        invariant
            idx <= n,
            n == points@.len(),
            x_vals@.len() == idx,
            forall|j: int| 0 <= j < idx ==> x_vals@[j] == points@[j].0,
        decreases n - idx,
    {
        x_vals.push(points[idx].0);
        idx = idx + 1;
    }
    proof {
        assert(x_vals@ =~= xs);
    }

    // Build first row from y-values
    let mut pyramid: Vec<Vec<Fixed>> = Vec::new();
    let mut first_col: Vec<Fixed> = Vec::new();
    idx = 0;
    while idx < n
        invariant
            idx <= n,
            n == points@.len(),
            first_col@.len() == idx,
            forall|j: int| 0 <= j < idx ==> first_col@[j] == points@[j].1,
        decreases n - idx,
    {
        first_col.push(points[idx].1);
        idx = idx + 1;
    }
    proof {
        assert(first_col@ =~= ys);
        assert(all_wf(ys));
    }
    pyramid.push(first_col);

    // Build remaining rows
    let mut k: usize = 1;
    while k < n
        invariant
            1 <= k <= n,
            n == points@.len(),
            points_wf(points@),
            x_target.wf(),
            xs == xs_of(points@),
            ys == ys_of(points@),
            x_vals@ == xs,
            pyramid@.len() == k,
            forall|j: int|
                0 <= j < k ==> (#[trigger] pyramid@[j])@ == row_spec(xs, ys, x_target, j),
            forall|j: int| 0 <= j < k ==> (#[trigger] pyramid@[j])@.len() == n - j,
            forall|j: int| 0 <= j < k ==> all_wf((#[trigger] pyramid@[j])@),
        decreases n - k,
    {
        let col_len = n - k;
        let mut col: Vec<Fixed> = Vec::new();
        let mut i: usize = 0;
        while i < col_len
            invariant
                col_len == n - k,
                1 <= k < n,
                n == points@.len(),
                points_wf(points@),
                x_target.wf(),
                xs == xs_of(points@),
                ys == ys_of(points@),
                x_vals@ == xs,
                pyramid@.len() == k,
                forall|j: int|
                    0 <= j < k ==> (#[trigger] pyramid@[j])@ == row_spec(xs, ys, x_target, j),
                forall|j: int| 0 <= j < k ==> (#[trigger] pyramid@[j])@.len() == n - j,
                forall|j: int| 0 <= j < k ==> all_wf((#[trigger] pyramid@[j])@),
                i <= col_len,
                col@.len() == i,
                forall|m: int|
                    0 <= m < i ==> col@[m] == entry_spec(
                        xs,
                        x_target,
                        row_spec(xs, ys, x_target, k - 1),
                        m,
                        k as int,
                    ),
                all_wf(col@),
            decreases col_len - i,
        {
            let prev = &pyramid[k - 1];
            // Apply Neville's formula
            let x_i = x_vals[i];
            let x_j = x_vals[i + k];
            let denom = x_j.sub(x_i);
            let val = x_target.sub(x_i).mul(prev[i + 1]).sub(x_target.sub(x_j).mul(prev[i])).div(
                denom,
            );
            col.push(val);
            i = i + 1;
        }
        proof {
            assert(col@ =~= row_spec(xs, ys, x_target, k as int));
        }
        pyramid.push(col);
        k = k + 1;
    }

    // Compute deltas
    let mut deltas: Vec<Fixed> = Vec::new();
    idx = 0;
    while idx < n - 1
        invariant
            idx <= n - 1,
            1 <= n == points@.len(),
            xs == xs_of(points@),
            ys == ys_of(points@),
            pyramid@.len() == n,
            forall|j: int|
                0 <= j < n ==> (#[trigger] pyramid@[j])@ == row_spec(xs, ys, x_target, j),
            forall|j: int| 0 <= j < n ==> (#[trigger] pyramid@[j])@.len() == n - j,
            forall|j: int| 0 <= j < n ==> all_wf((#[trigger] pyramid@[j])@),
            deltas@.len() == idx,
            forall|m: int| 0 <= m < idx ==> deltas@[m] == deltas_spec(xs, ys, x_target)[m],
            all_wf(deltas@),
        decreases n - 1 - idx,
    {
        let hi = &pyramid[idx + 1];
        let hi0 = hi[0];
        let lo = &pyramid[idx];
        let lo0 = lo[0];
        deltas.push(hi0.sub(lo0).abs());
        idx = idx + 1;
    }
    proof {
        assert(deltas@ =~= deltas_spec(xs, ys, x_target));
    }

    let last = &pyramid[n - 1];
    let value = last[0];

    NevilleResult { value, pyramid, deltas }
}

} // verus!
