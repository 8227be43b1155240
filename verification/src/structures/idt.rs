//! The stack frame pushed by the processor on an interrupt.

use vstd::prelude::*;

use crate::registers::flags::ArchitectureExt;
use crate::registers::flags::Flags;
use crate::registers::segmentation::SegmentSelector;

verus! {

/// The interrupt stack frame pushed by the CPU whenever an exception or
/// interrupt occurs.
///
/// The two pointer fields hold native-width values of the architecture `A`.
#[derive(Debug)]
pub struct InterruptStackFrame<A: ArchitectureExt> {
    /// Pointer to the instruction that should be executed when the interrupt
    /// handler returns.
    pub instruction_pointer: u64,
    /// The code [`SegmentSelector`] at the time of the interrupt.
    pub code_segment: SegmentSelector,
    /// The cpu [`Flags`] at the time of the interrupt.
    pub cpu_flags: Flags<A>,
    /// The stack pointer at the time of the interrupt.
    pub stack_pointer: u64,
    /// The stack [`SegmentSelector`] at the time of the interrupt.
    pub stack_segment: SegmentSelector,
}

impl<A: ArchitectureExt> InterruptStackFrame<A> {
    /// The pointer fields and the flags word fit the native register width
    /// of the architecture `A`.
    pub open spec fn wf(self) -> bool {
        &&& self.instruction_pointer & A::spec_register_mask() == self.instruction_pointer
        &&& self.stack_pointer & A::spec_register_mask() == self.stack_pointer
        &&& self.cpu_flags.wf()
    }
}

impl<A: ArchitectureExt> Clone for InterruptStackFrame<A> {
    fn clone(&self) -> (r: Self)
        ensures
            r == *self,
    {
        *self
    }
}

impl<A: ArchitectureExt> Copy for InterruptStackFrame<A> {

}

} // verus!
