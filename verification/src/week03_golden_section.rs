//! Golden Section Search: one-dimensional minimization of a unimodal
//! function by bracket shrinking with the golden-ratio complement.

pub mod gss;
pub mod types;

pub use gss::gss;
pub use types::GssResult;
pub use types::StoppingCriterion;
