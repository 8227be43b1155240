//! Typestate view over `x86` and `x86_64` segment descriptors.
//!
//! A descriptor is a 64-bit word carrying two compile-time markers: the
//! segment kind (code or data) and the presence state. Field accessors that
//! are only meaningful on a present descriptor are exposed only on values
//! whose marker proves presence.

use vstd::prelude::*;

use core::marker::PhantomData;

use crate::bits::lemma_two_bits_u64;
use crate::registers::flags::ArchitectureExt;
use crate::spec_ring;
use crate::PrivilegeLevel;
use crate::X86;
use crate::X86_64;

verus! {

/// Mask of the present bit of a descriptor, bit 47.
pub const PRESENT_BIT: u64 = 0x8000_0000_0000;

/// The 20-bit limit packed into the raw descriptor value `v`, reassembled
/// from bits 0 through 15 and bits 48 through 51.
pub open spec fn spec_limit(v: u64) -> u32 {
    ((v & 0xFFFF) | (((v >> 48) & 0xF) << 16)) as u32
}

/// The 32-bit base address packed into the raw descriptor value `v`,
/// reassembled from bits 16 through 39 and bits 56 through 63.
pub open spec fn spec_address(v: u64) -> u32 {
    (((v >> 16) & 0xFF_FFFF) | ((v >> 32) & 0xFF00_0000)) as u32
}

/// The raw descriptor value `v` with its limit field set to `limit`.
pub open spec fn spec_set_limit(v: u64, limit: u32) -> u64 {
    (v & !((0xFu64 << 48) | 0xFFFF)) | (limit as u64 & 0xFFFF) | ((limit as u64 & 0xF_0000) << 32)
}

/// The raw descriptor value `v` with its base address field set to `address`.
pub open spec fn spec_set_address(v: u64, address: u32) -> u64 {
    (v & !((0xFFu64 << 56) | (0xFF_FFFFu64 << 16))) | ((address as u64 & 0xFF_FFFF) << 16) | ((
    address as u64 & 0xFF00_0000) << 32)
}

/// A non-system descriptor.
#[derive(Debug)]
pub struct Descriptor<A, T, S> {
    /// The value of the descriptor.
    value: u64,
    /// Phantom data carrying the compile-time markers.
    descriptor_type: PhantomData<(A, T, S)>,
}

impl<A, T, S> Clone for Descriptor<A, T, S> {
    fn clone(&self) -> (r: Self)
        ensures
            r == *self,
    {
        *self
    }
}

impl<A, T, S> Copy for Descriptor<A, T, S> {

}

impl<A, T, S> View for Descriptor<A, T, S> {
    type V = u64;

    closed spec fn view(&self) -> u64 {
        self.value
    }
}

impl<A: ArchitectureDescriptorExt, T: DescriptorType, S: DescriptorState> Descriptor<A, T, S> {
    /// The raw value agrees with the compile-time presence marker `S`.
    pub open spec fn wf(self) -> bool {
        S::state_ok(self@)
    }

    /// Returns `true` if the [`Descriptor`]'s present bit is set.
    pub fn is_present(self) -> (r: bool)
        ensures
            r == (self@ & PRESENT_BIT == PRESENT_BIT),
    {
        self.value & PRESENT_BIT == PRESENT_BIT
    }

    /// Returns this [`Descriptor`], but with its present bit set.
    pub fn set_present(self) -> (r: Descriptor<A, T, Present>)
        ensures
            r@ == self@ | PRESENT_BIT,
            r.wf(),
    {
        proof {
            let v = self.value;
            assert((v | 0x8000_0000_0000u64) & 0x8000_0000_0000u64 == 0x8000_0000_0000u64)
                by (bit_vector);
        }
        Descriptor { value: self.value | PRESENT_BIT, descriptor_type: PhantomData }
    }

    /// Returns this [`Descriptor`], but with its present bit cleared.
    pub fn clear_present(self) -> (r: Descriptor<A, T, NotPresent>)
        ensures
            r@ == self@ & !PRESENT_BIT,
            r.wf(),
    {
        proof {
            let v = self.value;
            assert((v & !0x8000_0000_0000u64) & 0x8000_0000_0000u64 != 0x8000_0000_0000u64)
                by (bit_vector);
        }
        Descriptor { value: self.value & !PRESENT_BIT, descriptor_type: PhantomData }
    }

    /// Returns the raw representation of this [`Descriptor`].
    pub fn to_raw(self) -> (r: u64)
        ensures
            r == self@,
    {
        self.value
    }
}

impl<A: ArchitectureDescriptorExt, T: DescriptorType> Descriptor<A, T, Unclassified> {
    /// Creates a [`Descriptor`] from its raw representation, not yet
    /// classified as present or absent.
    pub fn from_raw(raw: u64) -> (r: Self)
        ensures
            r@ == raw,
    {
        Descriptor { value: raw, descriptor_type: PhantomData }
    }

    /// Classifies this [`Descriptor`] by reading its present bit.
    ///
    /// Both outcomes are infallible reinterpretations of the same raw value:
    /// an absent descriptor is a valid hardware state, not an error.
    pub fn classify_present(self) -> (r: Result<
        Descriptor<A, T, Present>,
        Descriptor<A, T, NotPresent>,
    >)
        ensures
            match r {
                Ok(d) => self@ & PRESENT_BIT == PRESENT_BIT && d@ == self@ && d.wf(),
                Err(d) => self@ & PRESENT_BIT != PRESENT_BIT && d@ == self@ && d.wf(),
            },
    {
        if self.value & PRESENT_BIT == PRESENT_BIT {
            Ok(Descriptor { value: self.value, descriptor_type: PhantomData })
        } else {
            Err(Descriptor { value: self.value, descriptor_type: PhantomData })
        }
    }
}

impl<A: ArchitectureDescriptorExt, T: DescriptorType> Descriptor<A, T, Present> {
    /// Returns the [`PrivilegeLevel`] of this [`Descriptor`], held in bits 45
    /// and 46.
    pub fn dpl(self) -> (r: PrivilegeLevel)
        ensures
            r == spec_ring(((self@ >> 45) & 3) as int),
    {
        proof {
            lemma_two_bits_u64(self.value >> 45);
        }
        match (self.value >> 45u64) & 3 {
            0 => PrivilegeLevel::Ring0,
            1 => PrivilegeLevel::Ring1,
            2 => PrivilegeLevel::Ring2,
            _ => PrivilegeLevel::Ring3,
        }
    }

    /// Returns this [`Descriptor`], but with its [`PrivilegeLevel`] set to
    /// `dpl`.
    pub fn set_dpl(self, dpl: PrivilegeLevel) -> (r: Self)
        requires
            self.wf(),
        ensures
            r@ == (self@ & !(3u64 << 45)) | ((dpl.spec_number() as u64) << 45),
            (r@ >> 45) & 3 == dpl.spec_number(),
            r.wf(),
    {
        let d = dpl.as_u8() as u64;
        proof {
            let v = self.value;
            assert(((v & !(3u64 << 45)) | (d << 45)) & 0x8000_0000_0000u64 == v
                & 0x8000_0000_0000u64 && (((v & !(3u64 << 45)) | (d << 45)) >> 45) & 3 == d)
                by (bit_vector)
                requires
                    d <= 3,
            ;
        }
        Descriptor {
            value: (self.value & !(3u64 << 45u64)) | (d << 45u64),
            descriptor_type: PhantomData,
        }
    }

    /// Returns whether the limit field of this [`Descriptor`] should be
    /// scaled by 4096.
    pub fn granularity(self) -> (r: bool)
        ensures
            r == (self@ & (1u64 << 55) == (1u64 << 55)),
    {
        self.value & (1u64 << 55u64) == (1u64 << 55u64)
    }

    /// Returns this [`Descriptor`], but with its granularity setting set to
    /// `granularity`.
    pub fn set_granularity(self, granularity: bool) -> (r: Self)
        requires
            self.wf(),
        ensures
            r@ == (self@ & !(1u64 << 55)) | ((if granularity { 1u64 } else { 0u64 }) << 55),
            r.wf(),
    {
        let g: u64 = if granularity { 1 } else { 0 };
        proof {
            crate::bits::lemma_single_bit_update_keeps_other_bit(self.value, g, 55, 47);
            assert(PRESENT_BIT == 1u64 << 47) by (bit_vector);
        }
        Descriptor {
            value: (self.value & !(1u64 << 55u64)) | (g << 55u64),
            descriptor_type: PhantomData,
        }
    }

    /// Returns the base address of this [`Descriptor`].
    pub fn address(self) -> (r: u32)
        ensures
            r == spec_address(self@),
    {
        proof {
            let v = self.value;
            assert(((v >> 16) & 0xFF_FFFF) | ((v >> 32) & 0xFF00_0000) <= 0xFFFF_FFFF)
                by (bit_vector);
        }
        (((self.value >> 16u64) & 0xFF_FFFF) | ((self.value >> 32u64) & 0xFF00_0000)) as u32
    }

    /// Returns this [`Descriptor`], but with its base address set to
    /// `address`.
    pub fn set_address(self, address: u32) -> (r: Self)
        requires
            self.wf(),
        ensures
            r@ == spec_set_address(self@, address),
            spec_address(r@) == address,
            r.wf(),
    {
        let a = address as u64;
        proof {
            let v = self.value;
            assert({
                let w = (v & !((0xFFu64 << 56) | (0xFF_FFFFu64 << 16))) | ((a & 0xFF_FFFF) << 16)
                    | ((a & 0xFF00_0000) << 32);
                &&& ((w >> 16) & 0xFF_FFFF) | ((w >> 32) & 0xFF00_0000) == a
                &&& w & 0x8000_0000_0000u64 == v & 0x8000_0000_0000u64
            }) by (bit_vector)
                requires
                    a <= 0xFFFF_FFFF,
            ;
        }
        Descriptor {
            value: (self.value & !((0xFFu64 << 56u64) | (0xFF_FFFFu64 << 16u64))) | ((a
                & 0xFF_FFFF) << 16u64) | ((a & 0xFF00_0000) << 32u64),
            descriptor_type: PhantomData,
        }
    }

    /// Returns the limit of this [`Descriptor`].
    pub fn limit(self) -> (r: u32)
        ensures
            r == spec_limit(self@),
    {
        proof {
            let v = self.value;
            assert((v & 0xFFFF) | (((v >> 48) & 0xF) << 16) <= 0xF_FFFF) by (bit_vector);
        }
        ((self.value & 0xFFFF) | (((self.value >> 48u64) & 0xF) << 16u64)) as u32
    }

    /// Returns this [`Descriptor`], but with its limit set to `limit`.
    ///
    /// The limit field is 20 bits wide, so limits of `2^20` and above are
    /// rejected and `None` is returned; every smaller limit is stored and
    /// read back exactly.
    pub fn set_limit(self, limit: u32) -> (r: Option<Self>)
        requires
            self.wf(),
        ensures
            match r {
                Some(d) => {
                    &&& limit < 0x10_0000
                    &&& d@ == spec_set_limit(self@, limit)
                    &&& spec_limit(d@) == limit
                    &&& d.wf()
                },
                None => limit >= 0x10_0000,
            },
    {
        if !(limit < 0x10_0000) {
            return None;
        }
        let l = limit as u64;
        proof {
            let v = self.value;
            lemma_set_limit_roundtrip(v, limit);
            assert({
                let w = (v & !((0xFu64 << 48) | 0xFFFF)) | (l & 0xFFFF) | ((l & 0xF_0000) << 32);
                w & 0x8000_0000_0000u64 == v & 0x8000_0000_0000u64
            }) by (bit_vector);
        }
        Some(
            Descriptor {
                value: (self.value & !((0xFu64 << 48u64) | 0xFFFF)) | (l & 0xFFFF) | ((l
                    & 0xF_0000) << 32u64),
                descriptor_type: PhantomData,
            },
        )
    }
}

/// Storing a limit below `2^20` and reading the limit field back yields the
/// stored limit, whatever the other bits of the descriptor hold.
pub proof fn lemma_set_limit_roundtrip(v: u64, limit: u32)
    requires
        limit < 0x10_0000,
    ensures
        spec_limit(spec_set_limit(v, limit)) == limit,
{
    let l = limit as u64;
    assert({
        let w = (v & !((0xFu64 << 48) | 0xFFFF)) | (l & 0xFFFF) | ((l & 0xF_0000) << 32);
        ((w & 0xFFFF) | (((w >> 48) & 0xF) << 16)) == l
    }) by (bit_vector)
        requires
            l < 0x10_0000,
    ;
}

/// A data segment.
#[derive(Clone, Copy, Debug)]
pub struct Data;

/// A code segment.
#[derive(Clone, Copy, Debug)]
pub struct Code;

/// The kind of a [`Descriptor`].
pub trait DescriptorType: DescriptorTypeSealed {

}

impl DescriptorType for Data {

}

impl DescriptorType for Code {

}

/// A [`Descriptor`] that has not been classified as [`Present`] or
/// [`NotPresent`].
#[derive(Clone, Copy, Debug)]
pub struct Unclassified;

/// A [`Descriptor`] that is not present.
#[derive(Clone, Copy, Debug)]
pub struct NotPresent;

/// A [`Descriptor`] that is present.
#[derive(Clone, Copy, Debug)]
pub struct Present;

/// The presence state of a [`Descriptor`], with the condition the raw value
/// must meet for the state marker to be truthful.
pub trait DescriptorState: DescriptorStateSealed {
    /// The condition the raw value `v` meets in this state.
    spec fn state_ok(v: u64) -> bool;
}

impl DescriptorState for Unclassified {
    open spec fn state_ok(v: u64) -> bool {
        true
    }
}

impl DescriptorState for NotPresent {
    open spec fn state_ok(v: u64) -> bool {
        v & PRESENT_BIT != PRESENT_BIT
    }
}

impl DescriptorState for Present {
    open spec fn state_ok(v: u64) -> bool {
        v & PRESENT_BIT == PRESENT_BIT
    }
}

/// Marker trait closing [`DescriptorType`] over the kinds this crate defines.
pub trait DescriptorTypeSealed {

}

impl DescriptorTypeSealed for Code {

}

impl DescriptorTypeSealed for Data {

}

/// Marker trait closing [`DescriptorState`] over the states this crate
/// defines.
pub trait DescriptorStateSealed {

}

impl DescriptorStateSealed for Unclassified {

}

impl DescriptorStateSealed for NotPresent {

}

impl DescriptorStateSealed for Present {

}

/// Extension trait for the architectures whose descriptors this view covers.
pub trait ArchitectureDescriptorExt: ArchitectureExt {

}

impl ArchitectureDescriptorExt for X86 {

}

impl ArchitectureDescriptorExt for X86_64 {

}

} // verus!
