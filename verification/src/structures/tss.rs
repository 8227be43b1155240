//! Flat layouts of the 16-bit, 32-bit and 64-bit task state segments.

use vstd::prelude::*;

use crate::registers::segmentation::SegmentSelector;

verus! {

/// Processor state needed to restore a 16-bit task.
#[derive(Clone, Copy, Debug, Hash, PartialEq, Eq)]
pub struct TaskStateSegment16 {
    /// The [`SegmentSelector`] of the [`TaskStateSegment16`] of the previous
    /// task.
    pub previous_task_link: SegmentSelector,
    /// The stack pointer that should be loaded when a transfer occurs to
    /// ring 0.
    pub stack_pointer_0: u16,
    /// The stack [`SegmentSelector`] that should be loaded when a transfer
    /// occurs to ring 0.
    pub stack_segment_0: SegmentSelector,
    /// The stack pointer that should be loaded when a transfer occurs to
    /// ring 1.
    pub stack_pointer_1: u16,
    /// The stack [`SegmentSelector`] that should be loaded when a transfer
    /// occurs to ring 1.
    pub stack_segment_1: SegmentSelector,
    /// The stack pointer that should be loaded when a transfer occurs to
    /// ring 2.
    pub stack_pointer_2: u16,
    /// The stack [`SegmentSelector`] that should be loaded when a transfer
    /// occurs to ring 2.
    pub stack_segment_2: SegmentSelector,
    /// The value corresponding to the `ip` register.
    pub instruction_pointer: u16,
    /// The value corresponding to the flags register.
    pub flags: u16,
    /// The value corresponding to the `ax` register.
    pub ax: u16,
    /// The value corresponding to the `cx` register.
    pub cx: u16,
    /// The value corresponding to the `dx` register.
    pub dx: u16,
    /// The value corresponding to the `bx` register.
    pub bx: u16,
    /// The value corresponding to the `sp` register.
    pub sp: u16,
    /// The value corresponding to the `bp` register.
    pub bp: u16,
    /// The value corresponding to the `si` register.
    pub si: u16,
    /// The value corresponding to the `di` register.
    pub di: u16,
    /// The [`SegmentSelector`] corresponding to the ES register.
    pub es: SegmentSelector,
    /// The [`SegmentSelector`] corresponding to the CS register.
    pub cs: SegmentSelector,
    /// The [`SegmentSelector`] corresponding to the SS register.
    pub ss: SegmentSelector,
    /// The [`SegmentSelector`] corresponding to the DS register.
    pub ds: SegmentSelector,
    /// The [`SegmentSelector`] for the task's LDT.
    pub ldt: SegmentSelector,
}

impl TaskStateSegment16 {
    /// Every field of this [`TaskStateSegment16`] is zero.
    pub open spec fn all_zero(self) -> bool {
        &&& self.previous_task_link@ == 0
        &&& self.stack_pointer_0 == 0
        &&& self.stack_segment_0@ == 0
        &&& self.stack_pointer_1 == 0
        &&& self.stack_segment_1@ == 0
        &&& self.stack_pointer_2 == 0
        &&& self.stack_segment_2@ == 0
        &&& self.instruction_pointer == 0
        &&& self.flags == 0
        &&& self.ax == 0
        &&& self.cx == 0
        &&& self.dx == 0
        &&& self.bx == 0
        &&& self.sp == 0
        &&& self.bp == 0
        &&& self.si == 0
        &&& self.di == 0
        &&& self.es@ == 0
        &&& self.cs@ == 0
        &&& self.ss@ == 0
        &&& self.ds@ == 0
        &&& self.ldt@ == 0
    }

    /// Creates a new [`TaskStateSegment16`] with every field set to zero.
    pub fn new() -> (r: Self)
        ensures
            r.all_zero(),
    {
        Self {
            previous_task_link: SegmentSelector::from_raw(0),
            stack_pointer_0: 0,
            stack_segment_0: SegmentSelector::from_raw(0),
            stack_pointer_1: 0,
            stack_segment_1: SegmentSelector::from_raw(0),
            stack_pointer_2: 0,
            stack_segment_2: SegmentSelector::from_raw(0),
            instruction_pointer: 0,
            flags: 0,
            ax: 0,
            cx: 0,
            dx: 0,
            bx: 0,
            sp: 0,
            bp: 0,
            si: 0,
            di: 0,
            es: SegmentSelector::from_raw(0),
            cs: SegmentSelector::from_raw(0),
            ss: SegmentSelector::from_raw(0),
            ds: SegmentSelector::from_raw(0),
            ldt: SegmentSelector::from_raw(0),
        }
    }
}

impl Default for TaskStateSegment16 {
    fn default() -> (r: Self)
        ensures
            r.all_zero(),
    {
        Self::new()
    }
}

/// Processor state information needed to restore a 32-bit task.
#[derive(Clone, Copy, Debug, Hash, PartialEq, Eq)]
pub struct TaskStateSegment32 {
    /// The [`SegmentSelector`] of the [`TaskStateSegment32`] of the previous
    /// task.
    pub previous_task_link: SegmentSelector,
    pub _reserved_0: u16,
    /// The stack pointer that should be loaded when a transfer occurs to
    /// ring 0.
    pub stack_pointer_0: u32,
    /// The stack [`SegmentSelector`] that should be loaded when a transfer
    /// occurs to ring 0.
    pub stack_segment_0: SegmentSelector,
    pub _reserved_1: u16,
    /// The stack pointer that should be loaded when a transfer occurs to
    /// ring 1.
    pub stack_pointer_1: u32,
    /// The stack [`SegmentSelector`] that should be loaded when a transfer
    /// occurs to ring 1.
    pub stack_segment_1: SegmentSelector,
    pub _reserved_2: u16,
    /// The stack pointer that should be loaded when a transfer occurs to
    /// ring 2.
    pub stack_pointer_2: u32,
    /// The stack [`SegmentSelector`] that should be loaded when a transfer
    /// occurs to ring 2.
    pub stack_segment_2: SegmentSelector,
    pub _reserved_3: u16,
    /// The physical address of the top level page table the running task uses.
    pub cr3: u32,
    /// The value corresponding to the `eip` register.
    pub instruction_pointer: u32,
    /// The value corresponding to the flags register.
    pub flags: u32,
    /// The value corresponding to the `eax` register.
    pub eax: u32,
    /// The value corresponding to the `ecx` register.
    pub ecx: u32,
    /// The value corresponding to the `edx` register.
    pub edx: u32,
    /// The value corresponding to the `ebx` register.
    pub ebx: u32,
    /// The value corresponding to the `esp` register.
    pub esp: u32,
    /// The value corresponding to the `ebp` register.
    pub ebp: u32,
    /// The value corresponding to the `esi` register.
    pub esi: u32,
    /// The value corresponding to the `edi` register.
    pub edi: u32,
    /// The [`SegmentSelector`] corresponding to the ES register.
    pub es: SegmentSelector,
    pub _reserved_4: u16,
    /// The [`SegmentSelector`] corresponding to the CS register.
    pub cs: SegmentSelector,
    pub _reserved_5: u16,
    /// The [`SegmentSelector`] corresponding to the SS register.
    pub ss: SegmentSelector,
    pub _reserved_6: u16,
    /// The [`SegmentSelector`] corresponding to the DS register.
    pub ds: SegmentSelector,
    pub _reserved_7: u16,
    /// The [`SegmentSelector`] corresponding to the FS register.
    pub fs: SegmentSelector,
    pub _reserved_8: u16,
    /// The [`SegmentSelector`] corresponding to the GS register.
    pub gs: SegmentSelector,
    pub _reserved_9: u16,
    /// The [`SegmentSelector`] for the task's LDT.
    pub ldt: SegmentSelector,
    pub _reserved_10: u16,
    /// Bit 0 of this field determines whether the processor should raise a
    /// debug exception on an incoming task switch.
    pub trap_reserved: u16,
    /// A 16-bit offset from the base of this [`TaskStateSegment32`] to the
    /// I/O permission bit map and interrupt redirection bitmap.
    pub io_map_base_address: u16,
}

impl TaskStateSegment32 {
    /// Every field of this [`TaskStateSegment32`] is zero.
    pub open spec fn all_zero(self) -> bool {
        &&& self.previous_task_link@ == 0
        &&& self.stack_pointer_0 == 0
        &&& self.stack_segment_0@ == 0
        &&& self.stack_pointer_1 == 0
        &&& self.stack_segment_1@ == 0
        &&& self.stack_pointer_2 == 0
        &&& self.stack_segment_2@ == 0
        &&& self.cr3 == 0
        &&& self.instruction_pointer == 0
        &&& self.flags == 0
        &&& self.eax == 0
        &&& self.ecx == 0
        &&& self.edx == 0
        &&& self.ebx == 0
        &&& self.esp == 0
        &&& self.ebp == 0
        &&& self.esi == 0
        &&& self.edi == 0
        &&& self.es@ == 0
        &&& self.cs@ == 0
        &&& self.ss@ == 0
        &&& self.ds@ == 0
        &&& self.fs@ == 0
        &&& self.gs@ == 0
        &&& self.ldt@ == 0
        &&& self.trap_reserved == 0
        &&& self.io_map_base_address == 0
    }

    /// Creates a new [`TaskStateSegment32`] with every field set to zero.
    pub fn new() -> (r: Self)
        ensures
            r.all_zero(),
    {
        Self {
            previous_task_link: SegmentSelector::from_raw(0),
            _reserved_0: 0,
            stack_pointer_0: 0,
            stack_segment_0: SegmentSelector::from_raw(0),
            _reserved_1: 0,
            stack_pointer_1: 0,
            stack_segment_1: SegmentSelector::from_raw(0),
            _reserved_2: 0,
            stack_pointer_2: 0,
            stack_segment_2: SegmentSelector::from_raw(0),
            _reserved_3: 0,
            cr3: 0,
            instruction_pointer: 0,
            flags: 0,
            eax: 0,
            ecx: 0,
            edx: 0,
            ebx: 0,
            esp: 0,
            ebp: 0,
            esi: 0,
            edi: 0,
            es: SegmentSelector::from_raw(0),
            _reserved_4: 0,
            cs: SegmentSelector::from_raw(0),
            _reserved_5: 0,
            ss: SegmentSelector::from_raw(0),
            _reserved_6: 0,
            ds: SegmentSelector::from_raw(0),
            _reserved_7: 0,
            fs: SegmentSelector::from_raw(0),
            _reserved_8: 0,
            gs: SegmentSelector::from_raw(0),
            _reserved_9: 0,
            ldt: SegmentSelector::from_raw(0),
            _reserved_10: 0,
            trap_reserved: 0,
            io_map_base_address: 0,
        }
    }
}

impl Default for TaskStateSegment32 {
    fn default() -> (r: Self)
        ensures
            r.all_zero(),
    {
        Self::new()
    }
}

/// A 64-bit task state segment with its hardware layout laid open: every
/// 64-bit stack pointer is stored as two public 32-bit halves.
///
/// This contains stacks to which to switch when entering a privilege ring,
/// stacks to which to switch upon an interrupt, and the offset of an I/O
/// permission bitmap.
#[derive(Clone, Copy, Debug, Hash, PartialEq, Eq)]
pub struct TaskStateSegment64 {
    pub _reserved_0: u32,
    /// Lower 32 bits of the stack pointer for ring 0.
    pub stack_pointer_0_low: u32,
    /// Upper 32 bits of the stack pointer for ring 0.
    pub stack_pointer_0_high: u32,
    /// Lower 32 bits of the stack pointer for ring 1.
    pub stack_pointer_1_low: u32,
    /// Upper 32 bits of the stack pointer for ring 1.
    pub stack_pointer_1_high: u32,
    /// Lower 32 bits of the stack pointer for ring 2.
    pub stack_pointer_2_low: u32,
    /// Upper 32 bits of the stack pointer for ring 2.
    pub stack_pointer_2_high: u32,
    pub _reserved_1: [u32; 2],
    /// Lower 32 bits of interrupt stack 1.
    pub ist1_low: u32,
    /// Upper 32 bits of interrupt stack 1.
    pub ist1_high: u32,
    /// Lower 32 bits of interrupt stack 2.
    pub ist2_low: u32,
    /// Upper 32 bits of interrupt stack 2.
    pub ist2_high: u32,
    /// Lower 32 bits of interrupt stack 3.
    pub ist3_low: u32,
    /// Upper 32 bits of interrupt stack 3.
    pub ist3_high: u32,
    /// Lower 32 bits of interrupt stack 4.
    pub ist4_low: u32,
    /// Upper 32 bits of interrupt stack 4.
    pub ist4_high: u32,
    /// Lower 32 bits of interrupt stack 5.
    pub ist5_low: u32,
    /// Upper 32 bits of interrupt stack 5.
    pub ist5_high: u32,
    /// Lower 32 bits of interrupt stack 6.
    pub ist6_low: u32,
    /// Upper 32 bits of interrupt stack 6.
    pub ist6_high: u32,
    /// Lower 32 bits of interrupt stack 7.
    pub ist7_low: u32,
    /// Upper 32 bits of interrupt stack 7.
    pub ist7_high: u32,
    pub _reserved_2: [u32; 2],
    pub _reserved_3: u16,
    /// Offset to the I/O permission bit map from the base of this
    /// [`TaskStateSegment64`].
    pub io_map_base: u16,
}

impl TaskStateSegment64 {
    /// Every field of this [`TaskStateSegment64`] is zero.
    pub open spec fn all_zero(self) -> bool {
        &&& self.stack_pointer_0_low == 0
        &&& self.stack_pointer_0_high == 0
        &&& self.stack_pointer_1_low == 0
        &&& self.stack_pointer_1_high == 0
        &&& self.stack_pointer_2_low == 0
        &&& self.stack_pointer_2_high == 0
        &&& self.ist1_low == 0
        &&& self.ist1_high == 0
        &&& self.ist2_low == 0
        &&& self.ist2_high == 0
        &&& self.ist3_low == 0
        &&& self.ist3_high == 0
        &&& self.ist4_low == 0
        &&& self.ist4_high == 0
        &&& self.ist5_low == 0
        &&& self.ist5_high == 0
        &&& self.ist6_low == 0
        &&& self.ist6_high == 0
        &&& self.ist7_low == 0
        &&& self.ist7_high == 0
        &&& self.io_map_base == 0
    }

    /// Creates a new [`TaskStateSegment64`] with all fields set to zero.
    pub fn new() -> (r: Self)
        ensures
            r.all_zero(),
    {
        Self {
            _reserved_0: 0,
            stack_pointer_0_low: 0,
            stack_pointer_0_high: 0,
            stack_pointer_1_low: 0,
            stack_pointer_1_high: 0,
            stack_pointer_2_low: 0,
            stack_pointer_2_high: 0,
            _reserved_1: [0;2],
            ist1_low: 0,
            ist1_high: 0,
            ist2_low: 0,
            ist2_high: 0,
            ist3_low: 0,
            ist3_high: 0,
            ist4_low: 0,
            ist4_high: 0,
            ist5_low: 0,
            ist5_high: 0,
            ist6_low: 0,
            ist6_high: 0,
            ist7_low: 0,
            ist7_high: 0,
            _reserved_2: [0;2],
            _reserved_3: 0,
            io_map_base: 0,
        }
    }
}

impl Default for TaskStateSegment64 {
    fn default() -> (r: Self)
        ensures
            r.all_zero(),
    {
        Self::new()
    }
}

} // verus!
