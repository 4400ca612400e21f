//! Graphing exercises: the verified data series behind the plots.

pub mod problems;
