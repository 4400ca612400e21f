//! Core data structures for the Golden Section Search algorithm.

use vstd::prelude::*;
use crate::common::fixed::Fixed;
use crate::common::fixed::abs_spec;
use crate::common::fixed::sub_spec;
use crate::common::fixed::lt_spec;

verus! {

/// Stopping criterion for the GSS algorithm.
#[derive(Debug, Clone, Copy, PartialEq, Eq, Structural)]
pub enum StoppingCriterion {
    /// Stop when the bracket width (b - a) falls below epsilon.
    IntervalWidth,
    /// Stop when |f(x1) - f(x2)| falls below epsilon.
    FunctionValueDiff,
}

/// Result from the Golden Section Search algorithm.
#[derive(Debug, Clone)]
pub struct GssResult {
    pub a: Fixed,
    pub b: Fixed,
    /// Left interior point.
    pub x1: Fixed,
    /// Right interior point.
    pub x2: Fixed,
    /// Function value at x1.
    pub fx1: Fixed,
    /// Function value at x2.
    pub fx2: Fixed,
    /// Number of iterations performed.
    pub iterations: usize,
    /// Final bracket width (b - a).
    pub interval_width: Fixed,
    /// Final |f(x1) - f(x2)|.
    pub function_value_diff: Fixed,
}

/// One intermediate state of the search: the bracket `[a, b]`, its two
/// interior probe points, and the function values at the probes. Used
/// by the specification to describe the search trajectory.
pub struct BracketState {
    pub a: Fixed,
    pub b: Fixed,
    pub x1: Fixed,
    pub x2: Fixed,
    pub fx1: Fixed,
    pub fx2: Fixed,
}

/// Whether the active stopping criterion holds of a bracket state:
/// the bracket width, or the probe-value difference, lies below `eps`.
pub open spec fn converged_spec(
    criterion: StoppingCriterion,
    eps: Fixed,
    a: Fixed,
    b: Fixed,
    fx1: Fixed,
    fx2: Fixed,
) -> bool {
    match criterion {
        StoppingCriterion::IntervalWidth => lt_spec(sub_spec(b, a), eps),
        StoppingCriterion::FunctionValueDiff => lt_spec(abs_spec(sub_spec(fx1, fx2)), eps),
    }
}

} // verus!
