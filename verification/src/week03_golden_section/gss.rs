//! Golden Section Search algorithm implementation.

use vstd::prelude::*;
use vstd::arithmetic::div_mod::lemma_div_pos_is_pos;
use vstd::arithmetic::div_mod::lemma_multiply_divide_le;
use vstd::arithmetic::div_mod::lemma_multiply_divide_lt;
use crate::common::fixed::Fixed;
use crate::common::fixed::MAX_MAG;
use crate::common::fixed::SCALE;
use crate::common::fixed::abs_spec;
use crate::common::fixed::add_spec;
use crate::common::fixed::mul_spec;
use crate::common::fixed::lt_spec;
use crate::common::fixed::neg_spec;
use crate::common::fixed::sub_spec;
use super::types::BracketState;
use super::types::GssResult;
use super::types::StoppingCriterion;
use super::types::converged_spec;

verus! {

/// Golden ratio complement (sqrt(5) - 1) / 2, in `SCALE` units.
pub const TAU_UNITS: u128 = 618_033_988_749_895;

/// The golden ratio complement as a `Fixed` value.
pub open spec fn tau_spec() -> Fixed {
    Fixed::Num { neg: false, mag: TAU_UNITS }
}

fn tau_fixed() -> (r: Fixed)
    ensures
        r == tau_spec(),
        r.wf(),
{
    Fixed::Num { neg: false, mag: TAU_UNITS }
}

/// The left interior probe point of a bracket: `b - tau * (b - a)`.
pub open spec fn probe_low(a: Fixed, b: Fixed) -> Fixed {
    sub_spec(b, mul_spec(tau_spec(), sub_spec(b, a)))
}

/// The right interior probe point of a bracket: `a + tau * (b - a)`.
pub open spec fn probe_high(a: Fixed, b: Fixed) -> Fixed {
    add_spec(a, mul_spec(tau_spec(), sub_spec(b, a)))
}

/// The state the search starts from: the probes sit at their two
/// golden-section positions in `[a, b]`, and each probe value is an
/// output of `f` at its probe point.
pub open spec fn is_init_state<F: Fn(Fixed) -> Fixed>(f: F, a: Fixed, b: Fixed, s: BracketState) -> bool {
    &&& s.a == a
    &&& s.b == b
    &&& s.x1 == probe_low(a, b)
    &&& s.x2 == probe_high(a, b)
    &&& call_ensures(f, (s.x1,), s.fx1)
    &&& call_ensures(f, (s.x2,), s.fx2)
}

/// One golden-section step from `s` to `t`. When `f(x1) < f(x2)` the
/// minimum lies in `[a, x2]`: the bracket keeps its lower part, the old
/// `x1` becomes the new `x2`, and a fresh `x1` is probed. Otherwise
/// (including exact ties, deliberately) the bracket keeps its upper
/// part `[x1, b]`, the old `x2` becomes the new `x1`, and a fresh `x2`
/// is probed. The fresh probe value is an output of `f` at its point.
pub open spec fn gss_step<F: Fn(Fixed) -> Fixed>(f: F, s: BracketState, t: BracketState) -> bool {
    if lt_spec(s.fx1, s.fx2) {
        &&& t.a == s.a
        &&& t.b == s.x2
        &&& t.x2 == s.x1
        &&& t.fx2 == s.fx1
        &&& t.x1 == probe_low(t.a, t.b)
        &&& call_ensures(f, (t.x1,), t.fx1)
    } else {
        &&& t.a == s.x1
        &&& t.b == s.b
        &&& t.x1 == s.x2
        &&& t.fx1 == s.fx2
        &&& t.x2 == probe_high(t.a, t.b)
        &&& call_ensures(f, (t.x2,), t.fx2)
    }
}

/// The stopping criterion evaluated on a bracket state.
pub open spec fn state_converged(
    criterion: StoppingCriterion,
    eps: Fixed,
    s: BracketState,
) -> bool {
    converged_spec(criterion, eps, s.a, s.b, s.fx1, s.fx2)
}

/// The result's bracket and probes are those of state `s`.
pub open spec fn result_matches_state(r: GssResult, s: BracketState) -> bool {
    &&& r.a == s.a
    &&& r.b == s.b
    &&& r.x1 == s.x1
    &&& r.x2 == s.x2
    &&& r.fx1 == s.fx1
    &&& r.fx2 == s.fx2
}

/// The whole trajectory of a search run: `trace[i]` is the state after
/// `i` iterations. The trace starts from the initial state, follows the
/// golden-section step relation, never passes a state at which the
/// active criterion already held (the search stops immediately), and
/// ends at the reported result state.
pub open spec fn gss_trace_ok<F: Fn(Fixed) -> Fixed>(
    f: F,
    a: Fixed,
    b: Fixed,
    eps: Fixed,
    criterion: StoppingCriterion,
    trace: Seq<BracketState>,
    r: GssResult,
) -> bool {
    &&& trace.len() == r.iterations + 1
    &&& is_init_state(f, a, b, trace[0])
    &&& forall|i: int| 0 <= i < trace.len() - 1 ==> gss_step(f, trace[i], #[trigger] trace[i + 1])
    &&& forall|i: int|
        1 <= i < trace.len() - 1 ==> !state_converged(criterion, eps, #[trigger] trace[i])
    &&& result_matches_state(r, trace.last())
}

/// Law: each golden-section step shrinks the bracket exactly by the
/// factor tau. From a bracket `[a, b]` with fresh probe points, keeping
/// the lower part `[a, x2]` or the upper part `[x1, b]` both leave a
/// bracket of width `tau * (b - a)` exactly, which is non-negative and,
/// for any positive-width bracket, strictly smaller than the old width.
pub proof fn lemma_golden_shrink(a: Fixed, b: Fixed)
    requires
        a is Num,
        b is Num,
        a.wf(),
        b.wf(),
        a.val() <= b.val(),
        b.val() - a.val() <= MAX_MAG,
    ensures
        ({
            let w = sub_spec(b, a);
            let tw = mul_spec(tau_spec(), w);
            &&& w is Num
            &&& tw is Num
            &&& sub_spec(probe_high(a, b), a) == tw
            &&& sub_spec(b, probe_low(a, b)) == tw
            &&& 0 <= tw.val() <= w.val()
            &&& (w.val() >= 1 ==> tw.val() < w.val())
        }),
{
    let va = a.val();
    let vb = b.val();
    let wv = vb - va;
    assert(neg_spec(a) is Num && neg_spec(a).val() == -va);
    let w = sub_spec(b, a);
    assert(w is Num && w.val() == wv && !(w->Num_neg) && w->Num_mag == wv);
    let m = (TAU_UNITS as int * wv) / (SCALE as int);
    assert(TAU_UNITS as int * wv >= 0) by (nonlinear_arith)
        requires
            wv >= 0,
    ;
    assert(m >= 0) by {
        lemma_div_pos_is_pos(TAU_UNITS as int * wv, SCALE as int);
    }
    assert(TAU_UNITS as int * wv <= SCALE as int * wv) by (nonlinear_arith)
        requires
            wv >= 0,
    ;
    assert(m <= wv) by {
        lemma_multiply_divide_le(TAU_UNITS as int * wv, SCALE as int, wv);
    }
    if wv >= 1 {
        assert(TAU_UNITS as int * wv < SCALE as int * wv) by (nonlinear_arith)
            requires
                wv >= 1,
        ;
        assert(m < wv) by {
            lemma_multiply_divide_lt(TAU_UNITS as int * wv, SCALE as int, wv);
        }
    }
    let tw = mul_spec(tau_spec(), w);
    assert(tw is Num && tw.val() == m && !(tw->Num_neg) && tw->Num_mag == m);
    let x2 = probe_high(a, b);
    assert(x2 is Num && x2.val() == va + m);
    assert(sub_spec(x2, a) == tw);
    let x1 = probe_low(a, b);
    assert(neg_spec(tw) is Num && neg_spec(tw).val() == -m);
    assert(x1 is Num && x1.val() == vb - m);
    assert(neg_spec(x1) is Num && neg_spec(x1).val() == -(vb - m));
    assert(sub_spec(b, x1) == tw);
}

/// Law: a golden-section step taken from a state whose probes are
/// fresh — in particular the initial state of any search trace — leaves
/// a bracket of width exactly `tau * (b - a)`, whichever branch the
/// probe comparison picks.
pub proof fn lemma_step_shrinks_fresh_bracket<F: Fn(Fixed) -> Fixed>(
    f: F,
    a: Fixed,
    b: Fixed,
    s: BracketState,
    t: BracketState,
)
    requires
        is_init_state(f, a, b, s),
        gss_step(f, s, t),
        a is Num,
        b is Num,
        a.wf(),
        b.wf(),
        a.val() <= b.val(),
        b.val() - a.val() <= MAX_MAG,
    ensures
        sub_spec(t.b, t.a) == mul_spec(tau_spec(), sub_spec(b, a)),
{
    lemma_golden_shrink(a, b);
}

/// Performs Golden Section Search to find the minimum of `f` on `[a, b]`.
///
/// The search keeps a bracket `[a, b]` with two interior probe points
/// `x1 = b - tau*(b-a)` and `x2 = a + tau*(b-a)`. Each iteration keeps
/// the half that must contain a minimizer of a unimodal function
/// (`[a, x2]` when `f(x1) < f(x2)`, else `[x1, b]`), reuses the probe
/// that stays interior, and evaluates `f` at the one fresh probe.
///
/// The iteration budget is a hard cap: the result reports the number of
/// iterations actually performed, and an early stop happens exactly when
/// the active stopping criterion holds of the freshly updated state.
/// Both convergence metrics are reported whichever criterion is active.
pub fn gss<F: Fn(Fixed) -> Fixed>(
    f: F,
    a: Fixed,
    b: Fixed,
    eps: Fixed,
    max_iter: usize,
    criterion: StoppingCriterion,
) -> (r: GssResult)
    requires
        a.wf(),
        b.wf(),
        forall|x: Fixed| x.wf() ==> call_requires(f, (x,)),
        forall|x: Fixed, y: Fixed| x.wf() && call_ensures(f, (x,), y) ==> y.wf(),
    ensures
        r.a.wf() && r.b.wf() && r.x1.wf() && r.x2.wf() && r.fx1.wf() && r.fx2.wf(),
        r.iterations <= max_iter,
        max_iter > 0 ==> r.iterations >= 1,
        r.iterations < max_iter ==> converged_spec(criterion, eps, r.a, r.b, r.fx1, r.fx2),
        r.interval_width == sub_spec(r.b, r.a),
        r.function_value_diff == abs_spec(sub_spec(r.fx1, r.fx2)),
        call_ensures(f, (r.x1,), r.fx1),
        call_ensures(f, (r.x2,), r.fx2),
        max_iter == 0 ==> r.iterations == 0 && r.a == a && r.b == b && r.x1 == probe_low(a, b)
            && r.x2 == probe_high(a, b),
        exists|trace: Seq<BracketState>| gss_trace_ok(f, a, b, eps, criterion, trace, r),
{
    let t = tau_fixed();
    let mut ca = a;
    let mut cb = b;
    let mut x1 = cb.sub(t.mul(cb.sub(ca)));
    let mut x2 = ca.add(t.mul(cb.sub(ca)));
    let mut fx1 = f(x1);
    let mut fx2 = f(x2);
    let mut iterations: usize = 0;
    let ghost mut trace: Seq<BracketState> = seq![
        BracketState { a: ca, b: cb, x1, x2, fx1, fx2 },
    ];

    while iterations < max_iter
        invariant_except_break
            iterations >= 1 ==> !state_converged(
                criterion,
                eps,
                (BracketState { a: ca, b: cb, x1, x2, fx1, fx2 }),
            ),
        invariant
            t == tau_spec(),
            t.wf(),
            ca.wf() && cb.wf() && x1.wf() && x2.wf() && fx1.wf() && fx2.wf(),
            iterations <= max_iter,
            call_ensures(f, (x1,), fx1),
            call_ensures(f, (x2,), fx2),
            forall|x: Fixed| x.wf() ==> call_requires(f, (x,)),
            forall|x: Fixed, y: Fixed| x.wf() && call_ensures(f, (x,), y) ==> y.wf(),
            max_iter == 0 ==> ca == a && cb == b && x1 == probe_low(a, b) && x2 == probe_high(
                a,
                b,
            ),
            trace.len() == iterations + 1,
            is_init_state(f, a, b, trace[0]),
            forall|i: int|
                0 <= i < trace.len() - 1 ==> gss_step(f, trace[i], #[trigger] trace[i + 1]),
            forall|i: int|
                1 <= i < trace.len() - 1 ==> !state_converged(criterion, eps, #[trigger] trace[i]),
            trace.last() == (BracketState { a: ca, b: cb, x1, x2, fx1, fx2 }),
        ensures
            ca.wf() && cb.wf() && x1.wf() && x2.wf() && fx1.wf() && fx2.wf(),
            iterations <= max_iter,
            call_ensures(f, (x1,), fx1),
            call_ensures(f, (x2,), fx2),
            iterations == max_iter || converged_spec(criterion, eps, ca, cb, fx1, fx2),
            max_iter > 0 ==> iterations >= 1,
            max_iter == 0 ==> ca == a && cb == b && x1 == probe_low(a, b) && x2 == probe_high(
                a,
                b,
            ),
            trace.len() == iterations + 1,
            is_init_state(f, a, b, trace[0]),
            forall|i: int|
                0 <= i < trace.len() - 1 ==> gss_step(f, trace[i], #[trigger] trace[i + 1]),
            forall|i: int|
                1 <= i < trace.len() - 1 ==> !state_converged(criterion, eps, #[trigger] trace[i]),
            trace.last() == (BracketState { a: ca, b: cb, x1, x2, fx1, fx2 }),
        decreases max_iter - iterations,
    {
        let ghost prev_state = BracketState { a: ca, b: cb, x1, x2, fx1, fx2 };
        if fx1.lt(fx2) {
            cb = x2;
            x2 = x1;
            fx2 = fx1;
            x1 = cb.sub(t.mul(cb.sub(ca)));
            fx1 = f(x1);
        } else {
            ca = x1;
            x1 = x2;
            fx1 = fx2;
            x2 = ca.add(t.mul(cb.sub(ca)));
            fx2 = f(x2);
        }
        iterations = iterations + 1;
        proof {
            let next_state = BracketState { a: ca, b: cb, x1, x2, fx1, fx2 };
            assert(gss_step(f, prev_state, next_state));
            trace = trace.push(next_state);
        }
        let converged = match criterion {
            StoppingCriterion::IntervalWidth => cb.sub(ca).lt(eps),
            StoppingCriterion::FunctionValueDiff => fx1.sub(fx2).abs().lt(eps),
        };
        if converged {
            break;
        }
    }

    let r = GssResult {
        a: ca,
        b: cb,
        x1,
        x2,
        fx1,
        fx2,
        iterations,
        interval_width: cb.sub(ca),
        function_value_diff: fx1.sub(fx2).abs(),
    };
    proof {
        assert(gss_trace_ok(f, a, b, eps, criterion, trace, r));
    }
    r
}

} // verus!
