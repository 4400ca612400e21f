//! Shared infrastructure: the fixed-point number kernel, debug configuration,
//! and timing helpers.

pub mod debug;
pub mod fixed;
pub mod timing;
