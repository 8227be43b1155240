//! Typed views over the `x86_64` paging structures.

pub mod bits64;
