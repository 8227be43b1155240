//! Typed views over the `x86` and `x86_64` segment registers.

use vstd::prelude::*;

use crate::bits::lemma_two_bits_u16;
use crate::spec_ring;
use crate::PrivilegeLevel;

verus! {

/// The code segment register.
#[derive(Clone, Copy, Debug, Hash, PartialEq, Eq, PartialOrd, Ord)]
pub struct CS;

/// The data segment register.
#[derive(Clone, Copy, Debug, Hash, PartialEq, Eq, PartialOrd, Ord)]
pub struct DS;

/// The stack segment register.
#[derive(Clone, Copy, Debug, Hash, PartialEq, Eq, PartialOrd, Ord)]
pub struct SS;

/// The ES register.
#[derive(Clone, Copy, Debug, Hash, PartialEq, Eq, PartialOrd, Ord)]
pub struct ES;

/// The FS register.
#[derive(Clone, Copy, Debug, Hash, PartialEq, Eq, PartialOrd, Ord)]
pub struct FS;

/// The GS register.
#[derive(Clone, Copy, Debug, Hash, PartialEq, Eq, PartialOrd, Ord)]
pub struct GS;

/// Specifies from where to load an element into a segment register.
///
/// Bits 3 and up hold the index into the GDT or LDT, bit 2 selects the LDT,
/// and bits 0 and 1 hold the requested privilege level.
#[derive(Clone, Copy, Debug, Hash, PartialEq, Eq, PartialOrd, Ord)]
pub struct SegmentSelector(u16);

/// The table index packed into the raw selector value `v`.
pub open spec fn spec_selector_index(v: u16) -> u16 {
    v >> 3
}

/// Whether the raw selector value `v` refers to the LDT.
pub open spec fn spec_selector_ldt(v: u16) -> bool {
    v & 4 == 4
}

/// The two requested-privilege-level bits of the raw selector value `v`.
pub open spec fn spec_selector_rpl_bits(v: u16) -> u16 {
    v & 3
}

impl View for SegmentSelector {
    type V = u16;

    closed spec fn view(&self) -> u16 {
        self.0
    }
}

impl SegmentSelector {
    /// Creates a new [`SegmentSelector`].
    ///
    /// The index field is 13 bits wide, so `index` must be below 8192.
    pub fn new(index: u16, ldt: bool, rpl: PrivilegeLevel) -> (r: Self)
        requires
            index < 8192,
        ensures
            r@ == (index << 3) | ((if ldt { 4u16 } else { 0u16 })) | (rpl.spec_number() as u16),
            spec_selector_index(r@) == index,
            spec_selector_ldt(r@) == ldt,
            spec_selector_rpl_bits(r@) == rpl.spec_number(),
            spec_ring(spec_selector_rpl_bits(r@) as int) == rpl,
    {
        let ldt_bit: u16 = if ldt { 4 } else { 0 };
        let rpl_bits: u16 = rpl.as_u8() as u16;
        let value: u16 = (index << 3u16) | ldt_bit | rpl_bits;
        proof {
            let i = index;
            let l = ldt_bit;
            let p = rpl_bits;
            assert((((i << 3) | l | p) >> 3) == i && (((i << 3) | l | p) & 4) == l && (((i << 3)
                | l | p) & 3) == p) by (bit_vector)
                requires
                    i < 8192,
                    l == 4 || l == 0,
                    p <= 3,
            ;
        }
        SegmentSelector(value)
    }

    /// Returns the index of the [`SegmentSelector`] into the GDT or LDT.
    pub fn index(self) -> (r: u16)
        ensures
            r == spec_selector_index(self@),
            r < 8192,
    {
        proof {
            let v = self.0;
            assert(v >> 3 < 8192) by (bit_vector);
        }
        self.0 >> 3u16
    }

    /// Returns whether this [`SegmentSelector`] refers to the GDT or LDT.
    pub fn ldt(self) -> (r: bool)
        ensures
            r == spec_selector_ldt(self@),
    {
        self.0 & 4 == 4
    }

    /// Returns the requested [`PrivilegeLevel`] of this [`SegmentSelector`].
    pub fn rpl(self) -> (r: PrivilegeLevel)
        ensures
            r == spec_ring(spec_selector_rpl_bits(self@) as int),
    {
        proof {
            lemma_two_bits_u16(self.0);
        }
        match self.0 & 3 {
            0 => PrivilegeLevel::Ring0,
            1 => PrivilegeLevel::Ring1,
            2 => PrivilegeLevel::Ring2,
            _ => PrivilegeLevel::Ring3,
        }
    }

    /// Sets the index of this [`SegmentSelector`] into the GDT or LDT.
    ///
    /// The index field is 13 bits wide, so `index` must be below 8192.
    pub fn set_index(self, index: u16) -> (r: Self)
        requires
            index < 8192,
        ensures
            r@ == (index << 3) | (self@ & 7),
            spec_selector_index(r@) == index,
            spec_selector_ldt(r@) == spec_selector_ldt(self@),
            spec_selector_rpl_bits(r@) == spec_selector_rpl_bits(self@),
    {
        proof {
            let i = index;
            let v = self.0;
            assert((((i << 3) | (v & 7)) >> 3) == i && (((i << 3) | (v & 7)) & 4) == (v & 4) && ((
            (i << 3) | (v & 7)) & 3) == (v & 3)) by (bit_vector)
                requires
                    i < 8192,
            ;
        }
        SegmentSelector((index << 3u16) | (self.0 & 7))
    }

    /// Sets whether this [`SegmentSelector`] refers to the GDT or LDT.
    pub fn set_ldt(self, ldt: bool) -> (r: Self)
        ensures
            r@ == (self@ & !4u16) | (if ldt { 4u16 } else { 0u16 }),
            spec_selector_ldt(r@) == ldt,
            spec_selector_index(r@) == spec_selector_index(self@),
            spec_selector_rpl_bits(r@) == spec_selector_rpl_bits(self@),
    {
        let ldt_bit: u16 = if ldt { 4 } else { 0 };
        proof {
            let v = self.0;
            let l = ldt_bit;
            assert((((v & !4) | l) & 4) == l && (((v & !4) | l) >> 3) == (v >> 3) && (((v & !4) | l)
                & 3) == (v & 3)) by (bit_vector)
                requires
                    l == 4 || l == 0,
            ;
        }
        SegmentSelector((self.0 & !4u16) | ldt_bit)
    }

    /// Sets the requested [`PrivilegeLevel`] of this [`SegmentSelector`].
    pub fn set_rpl(self, rpl: PrivilegeLevel) -> (r: Self)
        ensures
            r@ == (self@ & !3u16) | (rpl.spec_number() as u16),
            spec_selector_rpl_bits(r@) == rpl.spec_number(),
            spec_selector_index(r@) == spec_selector_index(self@),
            spec_selector_ldt(r@) == spec_selector_ldt(self@),
    {
        let rpl_bits: u16 = rpl.as_u8() as u16;
        proof {
            let v = self.0;
            let p = rpl_bits;
            assert((((v & !3) | p) & 3) == p && (((v & !3) | p) >> 3) == (v >> 3) && (((v & !3) | p)
                & 4) == (v & 4)) by (bit_vector)
                requires
                    p <= 3,
            ;
        }
        SegmentSelector((self.0 & !3u16) | rpl_bits)
    }

    /// Creates a new [`SegmentSelector`] from its raw representation.
    pub fn from_raw(raw: u16) -> (r: Self)
        ensures
            r@ == raw,
    {
        SegmentSelector(raw)
    }

    /// Returns the raw representation of this [`SegmentSelector`].
    pub fn to_raw(self) -> (r: u16)
        ensures
            r == self@,
    {
        self.0
    }
}

} // verus!
