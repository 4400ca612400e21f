//! Neville's polynomial interpolation: two implementations (imperative
//! and functional style) that build the full triangular pyramid of
//! intermediate values.

pub mod neville;
pub mod neville_functional;
pub mod types;

pub use neville::neville;
pub use neville_functional::neville_functional;
pub use types::NevilleResult;
