//! Typed views over the `x86` and `x86_64` in-memory descriptor and task
//! structures.

pub mod descriptor;
pub mod idt;
pub mod paging;
pub mod task_state;
pub mod tss;
