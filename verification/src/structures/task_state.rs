//! Typed view over the 64-bit task state segment.

use vstd::prelude::*;

use crate::bits::lemma_u64_halves_join;
use crate::bits::lemma_u64_zero_halves;

verus! {

/// The logical contents of a [`TaskStateSegment64`]: each stack pointer as
/// one 64-bit address, joined from the two 32-bit halves the hardware layout
/// splits it into.
pub struct TaskStateView {
    /// The stack pointer for ring 0.
    pub rsp0: u64,
    /// The stack pointer for ring 1.
    pub rsp1: u64,
    /// The stack pointer for ring 2.
    pub rsp2: u64,
    /// Interrupt stack 1.
    pub ist1: u64,
    /// Interrupt stack 2.
    pub ist2: u64,
    /// Interrupt stack 3.
    pub ist3: u64,
    /// Interrupt stack 4.
    pub ist4: u64,
    /// Interrupt stack 5.
    pub ist5: u64,
    /// Interrupt stack 6.
    pub ist6: u64,
    /// Interrupt stack 7.
    pub ist7: u64,
    /// Offset to the I/O permission bit map.
    pub io_map_base: u16,
}

/// The two 32-bit halves `lo` and `hi` joined into one 64-bit address.
pub open spec fn spec_join_halves(lo: u32, hi: u32) -> u64 {
    (lo as u64) | ((hi as u64) << 32)
}

/// A 64-bit task state segment.
///
/// This contains stacks to which to switch when entering a privilege ring,
/// stacks to which to switch upon an interrupt, and the offset of an I/O
/// permission bitmap. Every 64-bit address is stored split into two 32-bit
/// halves, as the hardware layout demands.
#[derive(Clone, Copy, Debug, Default, Hash, PartialEq, Eq)]
pub struct TaskStateSegment64 {
    _reserved_0: u32,
    /// Lower 32 bits of the stack pointer for ring 0.
    rsp0_low: u32,
    /// Upper 32 bits of the stack pointer for ring 0.
    rsp0_high: u32,
    /// Lower 32 bits of the stack pointer for ring 1.
    rsp1_low: u32,
    /// Upper 32 bits of the stack pointer for ring 1.
    rsp1_high: u32,
    /// Lower 32 bits of the stack pointer for ring 2.
    rsp2_low: u32,
    /// Upper 32 bits of the stack pointer for ring 2.
    rsp2_high: u32,
    _reserved_1: [u32; 2],
    /// Lower 32 bits of interrupt stack 1.
    ist1_low: u32,
    /// Upper 32 bits of interrupt stack 1.
    ist1_high: u32,
    /// Lower 32 bits of interrupt stack 2.
    ist2_low: u32,
    /// Upper 32 bits of interrupt stack 2.
    ist2_high: u32,
    /// Lower 32 bits of interrupt stack 3.
    ist3_low: u32,
    /// Upper 32 bits of interrupt stack 3.
    ist3_high: u32,
    /// Lower 32 bits of interrupt stack 4.
    ist4_low: u32,
    /// Upper 32 bits of interrupt stack 4.
    ist4_high: u32,
    /// Lower 32 bits of interrupt stack 5.
    ist5_low: u32,
    /// Upper 32 bits of interrupt stack 5.
    ist5_high: u32,
    /// Lower 32 bits of interrupt stack 6.
    ist6_low: u32,
    /// Upper 32 bits of interrupt stack 6.
    ist6_high: u32,
    /// Lower 32 bits of interrupt stack 7.
    ist7_low: u32,
    /// Upper 32 bits of interrupt stack 7.
    ist7_high: u32,
    _reserved_2: [u32; 2],
    _reserved_3: u16,
    /// Offset to the I/O permission bit map from the base of this
    /// [`TaskStateSegment64`].
    io_map_base: u16,
}

impl View for TaskStateSegment64 {
    type V = TaskStateView;

    closed spec fn view(&self) -> TaskStateView {
        TaskStateView {
            rsp0: spec_join_halves(self.rsp0_low, self.rsp0_high),
            rsp1: spec_join_halves(self.rsp1_low, self.rsp1_high),
            rsp2: spec_join_halves(self.rsp2_low, self.rsp2_high),
            ist1: spec_join_halves(self.ist1_low, self.ist1_high),
            ist2: spec_join_halves(self.ist2_low, self.ist2_high),
            ist3: spec_join_halves(self.ist3_low, self.ist3_high),
            ist4: spec_join_halves(self.ist4_low, self.ist4_high),
            ist5: spec_join_halves(self.ist5_low, self.ist5_high),
            ist6: spec_join_halves(self.ist6_low, self.ist6_high),
            ist7: spec_join_halves(self.ist7_low, self.ist7_high),
            io_map_base: self.io_map_base,
        }
    }
}

impl TaskStateSegment64 {
    /// Creates an empty [`TaskStateSegment64`]: every stack pointer and the
    /// I/O map offset are zero.
    pub fn new() -> (r: Self)
        ensures
            r@ == (TaskStateView {
                rsp0: 0,
                rsp1: 0,
                rsp2: 0,
                ist1: 0,
                ist2: 0,
                ist3: 0,
                ist4: 0,
                ist5: 0,
                ist6: 0,
                ist7: 0,
                io_map_base: 0,
            }),
    {
        proof {
            lemma_u64_zero_halves();
        }
        Self {
            _reserved_0: 0,
            rsp0_low: 0,
            rsp0_high: 0,
            rsp1_low: 0,
            rsp1_high: 0,
            rsp2_low: 0,
            rsp2_high: 0,
            _reserved_1: [0;2],
            ist1_low: 0,
            ist1_high: 0,
            ist2_low: 0,
            ist2_high: 0,
            ist3_low: 0,
            ist3_high: 0,
            ist4_low: 0,
            ist4_high: 0,
            ist5_low: 0,
            ist5_high: 0,
            ist6_low: 0,
            ist6_high: 0,
            ist7_low: 0,
            ist7_high: 0,
            _reserved_2: [0;2],
            _reserved_3: 0,
            io_map_base: 0,
        }
    }

    /// Returns the address of the stack pointer when entering ring 0.
    pub fn rsp0(&self) -> (r: u64)
        ensures
            r == self@.rsp0,
    {
        (self.rsp0_low as u64) | ((self.rsp0_high as u64) << 32u64)
    }

    /// Sets the address of the stack pointer when entering ring 0 to `val`.
    pub fn set_rsp0(&mut self, val: u64)
        ensures
            final(self)@ == (TaskStateView { rsp0: val, ..old(self)@ }),
    {
        proof {
            lemma_u64_halves_join(val);
        }
        self.rsp0_low = #[verifier::truncate] (val as u32);
        self.rsp0_high = (val >> 32u64) as u32;
    }

    /// Returns the address of the stack pointer when entering ring 1.
    pub fn rsp1(&self) -> (r: u64)
        ensures
            r == self@.rsp1,
    {
        (self.rsp1_low as u64) | ((self.rsp1_high as u64) << 32u64)
    }

    /// Sets the address of the stack pointer when entering ring 1 to `val`.
    pub fn set_rsp1(&mut self, val: u64)
        ensures
            final(self)@ == (TaskStateView { rsp1: val, ..old(self)@ }),
    {
        proof {
            lemma_u64_halves_join(val);
        }
        self.rsp1_low = #[verifier::truncate] (val as u32);
        self.rsp1_high = (val >> 32u64) as u32;
    }

    /// Returns the address of the stack pointer when entering ring 2.
    pub fn rsp2(&self) -> (r: u64)
        ensures
            r == self@.rsp2,
    {
        (self.rsp2_low as u64) | ((self.rsp2_high as u64) << 32u64)
    }

    /// Sets the address of the stack pointer when entering ring 2 to `val`.
    pub fn set_rsp2(&mut self, val: u64)
        ensures
            final(self)@ == (TaskStateView { rsp2: val, ..old(self)@ }),
    {
        proof {
            lemma_u64_halves_join(val);
        }
        self.rsp2_low = #[verifier::truncate] (val as u32);
        self.rsp2_high = (val >> 32u64) as u32;
    }

    /// Returns the address of the stack pointer when entering an interrupt
    /// handler that uses interrupt stack 1.
    pub fn is1(&self) -> (r: u64)
        ensures
            r == self@.ist1,
    {
        (self.ist1_low as u64) | ((self.ist1_high as u64) << 32u64)
    }

    /// Sets the address of the stack pointer when entering an interrupt
    /// handler that uses interrupt stack 1.
    pub fn set_ist1(&mut self, val: u64)
        ensures
            final(self)@ == (TaskStateView { ist1: val, ..old(self)@ }),
    {
        proof {
            lemma_u64_halves_join(val);
        }
        self.ist1_low = #[verifier::truncate] (val as u32);
        self.ist1_high = (val >> 32u64) as u32;
    }

    /// Returns the address of the stack pointer when entering an interrupt
    /// handler that uses interrupt stack 2.
    pub fn is2(&self) -> (r: u64)
        ensures
            r == self@.ist2,
    {
        (self.ist2_low as u64) | ((self.ist2_high as u64) << 32u64)
    }

    /// Sets the address of the stack pointer when entering an interrupt
    /// handler that uses interrupt stack 2.
    pub fn set_ist2(&mut self, val: u64)
        ensures
            final(self)@ == (TaskStateView { ist2: val, ..old(self)@ }),
    {
        proof {
            lemma_u64_halves_join(val);
        }
        self.ist2_low = #[verifier::truncate] (val as u32);
        self.ist2_high = (val >> 32u64) as u32;
    }

    /// Returns the address of the stack pointer when entering an interrupt
    /// handler that uses interrupt stack 3.
    pub fn is3(&self) -> (r: u64)
        ensures
            r == self@.ist3,
    {
        (self.ist3_low as u64) | ((self.ist3_high as u64) << 32u64)
    }

    /// Sets the address of the stack pointer when entering an interrupt
    /// handler that uses interrupt stack 3.
    pub fn set_ist3(&mut self, val: u64)
        ensures
            final(self)@ == (TaskStateView { ist3: val, ..old(self)@ }),
    {
        proof {
            lemma_u64_halves_join(val);
        }
        self.ist3_low = #[verifier::truncate] (val as u32);
        self.ist3_high = (val >> 32u64) as u32;
    }

    /// Returns the address of the stack pointer when entering an interrupt
    /// handler that uses interrupt stack 4.
    pub fn is4(&self) -> (r: u64)
        ensures
            r == self@.ist4,
    {
        (self.ist4_low as u64) | ((self.ist4_high as u64) << 32u64)
    }

    /// Sets the address of the stack pointer when entering an interrupt
    /// handler that uses interrupt stack 4.
    pub fn set_ist4(&mut self, val: u64)
        ensures
            final(self)@ == (TaskStateView { ist4: val, ..old(self)@ }),
    {
        proof {
            lemma_u64_halves_join(val);
        }
        self.ist4_low = #[verifier::truncate] (val as u32);
        self.ist4_high = (val >> 32u64) as u32;
    }

    /// Returns the address of the stack pointer when entering an interrupt
    /// handler that uses interrupt stack 5.
    pub fn is5(&self) -> (r: u64)
        ensures
            r == self@.ist5,
    {
        (self.ist5_low as u64) | ((self.ist5_high as u64) << 32u64)
    }

    /// Sets the address of the stack pointer when entering an interrupt
    /// handler that uses interrupt stack 5.
    pub fn set_ist5(&mut self, val: u64)
        ensures
            final(self)@ == (TaskStateView { ist5: val, ..old(self)@ }),
    {
        proof {
            lemma_u64_halves_join(val);
        }
        self.ist5_low = #[verifier::truncate] (val as u32);
        self.ist5_high = (val >> 32u64) as u32;
    }

    /// Returns the address of the stack pointer when entering an interrupt
    /// handler that uses interrupt stack 6.
    pub fn is6(&self) -> (r: u64)
        ensures
            r == self@.ist6,
    {
        (self.ist6_low as u64) | ((self.ist6_high as u64) << 32u64)
    }

    /// Sets the address of the stack pointer when entering an interrupt
    /// handler that uses interrupt stack 6.
    pub fn set_ist6(&mut self, val: u64)
        ensures
            final(self)@ == (TaskStateView { ist6: val, ..old(self)@ }),
    {
        proof {
            lemma_u64_halves_join(val);
        }
        self.ist6_low = #[verifier::truncate] (val as u32);
        self.ist6_high = (val >> 32u64) as u32;
    }

    /// Returns the address of the stack pointer when entering an interrupt
    /// handler that uses interrupt stack 7.
    pub fn is7(&self) -> (r: u64)
        ensures
            r == self@.ist7,
    {
        (self.ist7_low as u64) | ((self.ist7_high as u64) << 32u64)
    }

    /// Sets the address of the stack pointer when entering an interrupt
    /// handler that uses interrupt stack 7.
    pub fn set_ist7(&mut self, val: u64)
        ensures
            final(self)@ == (TaskStateView { ist7: val, ..old(self)@ }),
    {
        proof {
            lemma_u64_halves_join(val);
        }
        self.ist7_low = #[verifier::truncate] (val as u32);
        self.ist7_high = (val >> 32u64) as u32;
    }

    /// Returns the offset from the base of this [`TaskStateSegment64`] to
    /// the start of the I/O permission bit map.
    pub fn io_map_base(&self) -> (r: u16)
        ensures
            r == self@.io_map_base,
    {
        self.io_map_base
    }

    /// Sets the offset from the base of this [`TaskStateSegment64`] to the
    /// start of the I/O permission bit map.
    pub fn set_io_map_base(&mut self, val: u16)
        ensures
            final(self)@ == (TaskStateView { io_map_base: val, ..old(self)@ }),
    {
        self.io_map_base = val;
    }
}

} // verus!
