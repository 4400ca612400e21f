//! Classical one-dimensional numerical methods for coursework exploration:
//! polynomial interpolation via Neville's algorithm and scalar minimization
//! via Golden Section Search, over a verified fixed-point number kernel.

pub mod common;
pub mod week01_graphing;
pub mod week02_neville;
pub mod week03_golden_section;
