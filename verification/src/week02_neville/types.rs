//! Core data structures and specification of Neville's interpolation.

use vstd::prelude::*;
use crate::common::fixed::Fixed;
use crate::common::fixed::abs_spec;
use crate::common::fixed::div_spec;
use crate::common::fixed::mul_spec;
use crate::common::fixed::sub_spec;

verus! {

/// Result from Neville's algorithm.
#[derive(Debug, Clone)]
pub struct NevilleResult {
    /// The interpolated value at the target point.
    pub value: Fixed,
    /// The full triangular pyramid of intermediate values.
    /// pyramid[k][i] represents P_{i,i+k}.
    pub pyramid: Vec<Vec<Fixed>>,
    /// Deltas between successive row top values: |P[0,k] - P[0,k-1]|.
    pub deltas: Vec<Fixed>,
}

/// All entries of a sequence of values are well-formed.
pub open spec fn all_wf(s: Seq<Fixed>) -> bool {
    forall|i: int| 0 <= i < s.len() ==> (#[trigger] s[i]).wf()
}

/// Both coordinates of every sample are well-formed.
pub open spec fn points_wf(points: Seq<(Fixed, Fixed)>) -> bool {
    forall|i: int|
        0 <= i < points.len() ==> (#[trigger] points[i]).0.wf() && points[i].1.wf()
}

/// The x-coordinates of a sample sequence, in input order.
pub open spec fn xs_of(points: Seq<(Fixed, Fixed)>) -> Seq<Fixed> {
    points.map_values(|p: (Fixed, Fixed)| p.0)
}

/// The y-coordinates of a sample sequence, in input order.
pub open spec fn ys_of(points: Seq<(Fixed, Fixed)>) -> Seq<Fixed> {
    points.map_values(|p: (Fixed, Fixed)| p.1)
}

/// Neville's recurrence for the entry `P_{i,i+k}`: combines the two
/// neighbouring entries of the previous row,
/// `((t - x_i) * prev[i+1] - (t - x_{i+k}) * prev[i]) / (x_{i+k} - x_i)`.
pub open spec fn entry_spec(
    xs: Seq<Fixed>,
    target: Fixed,
    prev: Seq<Fixed>,
    i: int,
    k: int,
) -> Fixed {
    let xi = xs[i];
    let xj = xs[i + k];
    div_spec(
        sub_spec(
            mul_spec(sub_spec(target, xi), prev[i + 1]),
            mul_spec(sub_spec(target, xj), prev[i]),
        ),
        sub_spec(xj, xi),
    )
}

/// Row `k` of the interpolation pyramid: row 0 is the y-values verbatim,
/// and row `k` applies Neville's recurrence to row `k - 1`.
pub open spec fn row_spec(xs: Seq<Fixed>, ys: Seq<Fixed>, target: Fixed, k: int) -> Seq<Fixed>
    recommends
        xs.len() == ys.len(),
        0 <= k < ys.len(),
    decreases k,
{
    if k <= 0 {
        ys
    } else {
        let prev = row_spec(xs, ys, target, k - 1);
        Seq::new((ys.len() - k) as nat, |i: int| entry_spec(xs, target, prev, i, k))
    }
}

/// The successive-approximation differences: `|row[k+1][0] - row[k][0]|`.
pub open spec fn deltas_spec(xs: Seq<Fixed>, ys: Seq<Fixed>, target: Fixed) -> Seq<Fixed> {
    Seq::new(
        if ys.len() == 0 { 0nat } else { (ys.len() - 1) as nat },
        |i: int|
            abs_spec(
                sub_spec(
                    row_spec(xs, ys, target, i + 1)[0],
                    row_spec(xs, ys, target, i)[0],
                ),
            ),
    )
}

/// Full contract of Neville interpolation over `n` samples: the pyramid
/// holds exactly the rows of the recurrence (so row `k` has length
/// `n - k` and row 0 is the y-values verbatim), the value is the single
/// entry of the last row (not-a-number when there are no samples, the
/// lone y-value for a single sample), and the deltas are the
/// successive-approximation differences.
pub open spec fn neville_post(
    points: Seq<(Fixed, Fixed)>,
    target: Fixed,
    r: NevilleResult,
) -> bool {
    let n = points.len() as int;
    let xs = xs_of(points);
    let ys = ys_of(points);
    &&& r.pyramid@.len() == n
    &&& forall|k: int|
        0 <= k < n ==> (#[trigger] r.pyramid@[k])@ == row_spec(xs, ys, target, k)
    &&& forall|k: int| 0 <= k < n ==> (#[trigger] r.pyramid@[k])@.len() == n - k
    &&& (n == 0 ==> r.value is NotANum)
    &&& (n > 0 ==> r.value == row_spec(xs, ys, target, n - 1)[0])
    &&& (n > 0 ==> r.pyramid@[0]@ == ys)
    &&& (n == 1 ==> r.value == points[0].1)
    &&& r.deltas@ == deltas_spec(xs, ys, target)
    &&& r.deltas@.len() == (if n == 0 { 0int } else { n - 1 })
    &&& points_wf(points) ==> forall|k: int| 0 <= k < n ==> all_wf((#[trigger] r.pyramid@[k])@)
    &&& points_wf(points) ==> all_wf(r.deltas@)
    &&& r.value.wf()
}

} // verus!
