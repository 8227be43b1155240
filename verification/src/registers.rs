//! Typed views over the `x86` and `x86_64` registers.

pub mod flags;
pub mod segmentation;
