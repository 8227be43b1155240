//! Typed view over the `x86` and `x86_64` flags register.

use vstd::prelude::*;
use vstd::string::StringExecFns;

use core::marker::PhantomData;

use crate::bits::lemma_mask_closed_under_ops;
use crate::bits::lemma_mask_idempotent;
use crate::bits::lemma_two_bits_u64;
use crate::spec_ring;
use crate::PrivilegeLevel;
use crate::X86;
use crate::X86_64;

verus! {

/// An architecture of the `x86` family, fixing the width of the native
/// general register as the mask of its valid bits.
pub trait ArchitectureExt {
    /// The mask selecting the bits a general register of this architecture holds.
    spec fn spec_register_mask() -> u64;

    /// Returns the mask selecting the bits a general register of this
    /// architecture holds.
    fn register_mask() -> (r: u64)
        ensures
            r == Self::spec_register_mask(),
    ;
}

impl ArchitectureExt for X86 {
    open spec fn spec_register_mask() -> u64 {
        0xFFFF_FFFF
    }

    fn register_mask() -> u64 {
        0xFFFF_FFFF
    }
}

impl ArchitectureExt for X86_64 {
    open spec fn spec_register_mask() -> u64 {
        0xFFFF_FFFF_FFFF_FFFF
    }

    fn register_mask() -> u64 {
        0xFFFF_FFFF_FFFF_FFFF
    }
}

/// Mask of the carry flag, set on a carry or borrow out of the most
/// significant bit.
pub const CARRY: u64 = 0x1;

/// Mask of the parity flag, set when the least significant result byte has an
/// even number of one bits.
pub const PARITY: u64 = 0x4;

/// Mask of the auxiliary-carry flag, set on a carry or borrow out of bit 3.
pub const AUXILIARY_CARRY: u64 = 0x10;

/// Mask of the zero flag, set when the result is zero.
pub const ZERO: u64 = 0x40;

/// Mask of the sign flag, set equal to the most significant bit of the result.
pub const SIGN: u64 = 0x80;

/// Mask of the trap flag, set to enable single-step debugging.
pub const TRAP: u64 = 0x100;

/// Mask of the interrupt-enable flag, which controls the response to maskable
/// interrupts.
pub const INTERRUPT_ENABLE: u64 = 0x200;

/// Mask of the direction flag, which controls the direction of string
/// operations.
pub const DIRECTION: u64 = 0x400;

/// Mask of the overflow flag, set when a signed result does not fit the
/// destination.
pub const OVERFLOW: u64 = 0x800;

/// Mask of the two-bit I/O privilege level field.
pub const IOPL: u64 = 0x3000;

/// Mask of the nested-task flag, set when the current task is linked to the
/// previously executed task.
pub const NESTED_TASK: u64 = 0x4000;

/// Mask of the resume flag, which controls the response to debug exceptions.
pub const RESUME: u64 = 0x1_0000;

/// Mask of the virtual-8086-mode flag.
pub const VIRTUAL_8086_MODE: u64 = 0x2_0000;

/// Mask of the alignment-check flag.
pub const ALIGNMENT_CHECK: u64 = 0x4_0000;

/// Mask of the virtual-interrupt flag, a virtual image of the
/// interrupt-enable flag.
pub const VIRTUAL_INTERRUPT: u64 = 0x8_0000;

/// Mask of the virtual-interrupt-pending flag.
pub const VIRTUAL_INTERRUPT_PENDING: u64 = 0x10_0000;

/// Mask of the identification flag, whose writability indicates CPUID
/// support.
pub const IDENTIFICATION: u64 = 0x20_0000;

/// The `x86` and `x86_64` flags register: a native-width word of named
/// single-bit fields and the two-bit I/O privilege level field.
#[derive(Debug, Hash, PartialEq, Eq)]
pub struct Flags<A: ArchitectureExt> {
    value: u64,
    arch: PhantomData<A>,
}

impl<A: ArchitectureExt> Clone for Flags<A> {
    fn clone(&self) -> (r: Self)
        ensures
            r == *self,
    {
        *self
    }
}

impl<A: ArchitectureExt> Copy for Flags<A> {

}

impl<A: ArchitectureExt> View for Flags<A> {
    type V = u64;

    closed spec fn view(&self) -> u64 {
        self.value
    }
}

impl<A: ArchitectureExt> Flags<A> {
    /// The stored word fits the native register width of `A`.
    pub open spec fn wf(self) -> bool {
        self@ & A::spec_register_mask() == self@
    }

    /// Creates a [`Flags`] value from a raw word, keeping the bits the native
    /// register of `A` holds.
    pub fn from_raw(raw: u64) -> (r: Self)
        ensures
            r@ == raw & A::spec_register_mask(),
            r.wf(),
    {
        let value = raw & A::register_mask();
        proof {
            lemma_mask_idempotent(raw, A::spec_register_mask());
        }
        Flags { value, arch: PhantomData }
    }

    /// Returns the raw word of this [`Flags`] value.
    pub fn to_raw(self) -> (r: u64)
        ensures
            r == self@,
    {
        self.value
    }

    /// Returns `true` if the carry flag is set.
    pub fn is_carry(self) -> (r: bool)
        ensures
            r == (self@ & CARRY == CARRY),
    {
        self.value & CARRY == CARRY
    }

    /// Returns `true` if the parity flag is set.
    pub fn is_parity(self) -> (r: bool)
        ensures
            r == (self@ & PARITY == PARITY),
    {
        self.value & PARITY == PARITY
    }

    /// Returns `true` if the auxiliary-carry flag is set.
    pub fn is_auxiliary_carry(self) -> (r: bool)
        ensures
            r == (self@ & AUXILIARY_CARRY == AUXILIARY_CARRY),
    {
        self.value & AUXILIARY_CARRY == AUXILIARY_CARRY
    }

    /// Returns `true` if the zero flag is set.
    pub fn is_zero(self) -> (r: bool)
        ensures
            r == (self@ & ZERO == ZERO),
    {
        self.value & ZERO == ZERO
    }

    /// Returns `true` if the sign flag is set.
    pub fn is_sign(self) -> (r: bool)
        ensures
            r == (self@ & SIGN == SIGN),
    {
        self.value & SIGN == SIGN
    }

    /// Returns `true` if the trap flag is set.
    pub fn is_trap(self) -> (r: bool)
        ensures
            r == (self@ & TRAP == TRAP),
    {
        self.value & TRAP == TRAP
    }

    /// Returns `true` if the interrupt-enable flag is set.
    pub fn is_interrupt_enable(self) -> (r: bool)
        ensures
            r == (self@ & INTERRUPT_ENABLE == INTERRUPT_ENABLE),
    {
        self.value & INTERRUPT_ENABLE == INTERRUPT_ENABLE
    }

    /// Returns `true` if the direction flag is set.
    pub fn is_direction(self) -> (r: bool)
        ensures
            r == (self@ & DIRECTION == DIRECTION),
    {
        self.value & DIRECTION == DIRECTION
    }

    /// Returns `true` if the overflow flag is set.
    pub fn is_overflow(self) -> (r: bool)
        ensures
            r == (self@ & OVERFLOW == OVERFLOW),
    {
        self.value & OVERFLOW == OVERFLOW
    }

    /// Returns `true` if the nested-task flag is set.
    pub fn is_nested_task(self) -> (r: bool)
        ensures
            r == (self@ & NESTED_TASK == NESTED_TASK),
    {
        self.value & NESTED_TASK == NESTED_TASK
    }

    /// Returns `true` if the resume flag is set.
    pub fn is_resume(self) -> (r: bool)
        ensures
            r == (self@ & RESUME == RESUME),
    {
        self.value & RESUME == RESUME
    }

    /// Returns `true` if the virtual-8086-mode flag is set.
    pub fn is_virtual_8086_mode(self) -> (r: bool)
        ensures
            r == (self@ & VIRTUAL_8086_MODE == VIRTUAL_8086_MODE),
    {
        self.value & VIRTUAL_8086_MODE == VIRTUAL_8086_MODE
    }

    /// Returns `true` if the alignment-check flag is set.
    pub fn is_alignment_check(self) -> (r: bool)
        ensures
            r == (self@ & ALIGNMENT_CHECK == ALIGNMENT_CHECK),
    {
        self.value & ALIGNMENT_CHECK == ALIGNMENT_CHECK
    }

    /// Returns `true` if the virtual-interrupt flag is set.
    pub fn is_virtual_interrupt(self) -> (r: bool)
        ensures
            r == (self@ & VIRTUAL_INTERRUPT == VIRTUAL_INTERRUPT),
    {
        self.value & VIRTUAL_INTERRUPT == VIRTUAL_INTERRUPT
    }

    /// Returns `true` if the virtual-interrupt-pending flag is set.
    pub fn is_virtual_interrupt_pending(self) -> (r: bool)
        ensures
            r == (self@ & VIRTUAL_INTERRUPT_PENDING == VIRTUAL_INTERRUPT_PENDING),
    {
        self.value & VIRTUAL_INTERRUPT_PENDING == VIRTUAL_INTERRUPT_PENDING
    }

    /// Returns `true` if the identification flag is set.
    pub fn is_identification(self) -> (r: bool)
        ensures
            r == (self@ & IDENTIFICATION == IDENTIFICATION),
    {
        self.value & IDENTIFICATION == IDENTIFICATION
    }

    /// Returns the I/O [`PrivilegeLevel`] of the currently running program.
    ///
    /// Every two-bit pattern of the field names a ring, so no other outcome
    /// is reachable.
    pub fn iopl(&self) -> (r: PrivilegeLevel)
        ensures
            r == spec_ring(((self@ >> 12) & 3) as int),
    {
        proof {
            lemma_two_bits_u64(self.value >> 12);
        }
        match (self.value >> 12u64) & 3 {
            0 => PrivilegeLevel::Ring0,
            1 => PrivilegeLevel::Ring1,
            2 => PrivilegeLevel::Ring2,
            _ => PrivilegeLevel::Ring3,
        }
    }

    /// Returns the bitwise AND of the two flag words.
    pub fn bitand(self, rhs: Self) -> (r: Self)
        requires
            self.wf(),
            rhs.wf(),
        ensures
            r@ == self@ & rhs@,
            r.wf(),
    {
        proof {
            lemma_mask_closed_under_ops(self.value, rhs.value, A::spec_register_mask());
        }
        Flags { value: self.value & rhs.value, arch: PhantomData }
    }

    /// Returns the bitwise OR of the two flag words.
    pub fn bitor(self, rhs: Self) -> (r: Self)
        requires
            self.wf(),
            rhs.wf(),
        ensures
            r@ == self@ | rhs@,
            r.wf(),
    {
        proof {
            lemma_mask_closed_under_ops(self.value, rhs.value, A::spec_register_mask());
        }
        Flags { value: self.value | rhs.value, arch: PhantomData }
    }

    /// Returns the bitwise XOR of the two flag words.
    pub fn bitxor(self, rhs: Self) -> (r: Self)
        requires
            self.wf(),
            rhs.wf(),
        ensures
            r@ == self@ ^ rhs@,
            r.wf(),
    {
        proof {
            lemma_mask_closed_under_ops(self.value, rhs.value, A::spec_register_mask());
        }
        Flags { value: self.value ^ rhs.value, arch: PhantomData }
    }

    /// Replaces this flag word with the bitwise AND of the two flag words.
    pub fn bitand_assign(&mut self, rhs: Self)
        requires
            old(self).wf(),
            rhs.wf(),
        ensures
            final(self)@ == old(self)@ & rhs@,
            final(self).wf(),
    {
        proof {
            lemma_mask_closed_under_ops(self.value, rhs.value, A::spec_register_mask());
        }
        self.value = self.value & rhs.value;
    }

    /// Replaces this flag word with the bitwise OR of the two flag words.
    pub fn bitor_assign(&mut self, rhs: Self)
        requires
            old(self).wf(),
            rhs.wf(),
        ensures
            final(self)@ == old(self)@ | rhs@,
            final(self).wf(),
    {
        proof {
            lemma_mask_closed_under_ops(self.value, rhs.value, A::spec_register_mask());
        }
        self.value = self.value | rhs.value;
    }

    /// Replaces this flag word with the bitwise XOR of the two flag words.
    pub fn bitxor_assign(&mut self, rhs: Self)
        requires
            old(self).wf(),
            rhs.wf(),
        ensures
            final(self)@ == old(self)@ ^ rhs@,
            final(self).wf(),
    {
        proof {
            lemma_mask_closed_under_ops(self.value, rhs.value, A::spec_register_mask());
        }
        self.value = self.value ^ rhs.value;
    }
}

/// One step of the diagnostic rendering: when `cond` holds, the flag `name`
/// and the separator are appended to `s`.
pub open spec fn spec_flag_item(s: Seq<char>, cond: bool, name: Seq<char>) -> Seq<char> {
    if cond {
        s + name + " | "@
    } else {
        s
    }
}

/// The decimal digit of the I/O privilege level field of `v`.
pub open spec fn spec_iopl_digit(v: u64) -> Seq<char> {
    let b = (v >> 12) & 3;
    if b == 0 {
        "0"@
    } else if b == 1 {
        "1"@
    } else if b == 2 {
        "2"@
    } else {
        "3"@
    }
}

/// The diagnostic rendering of the flag word `v`: the names of the set flags,
/// each followed by a separator, and the I/O privilege level last.
pub open spec fn spec_flags_text(v: u64) -> Seq<char> {
    let s = Seq::<char>::empty();
    let s = spec_flag_item(s, v & CARRY == CARRY, "CARRY"@);
    let s = spec_flag_item(s, v & PARITY == PARITY, "PARITY"@);
    let s = spec_flag_item(s, v & AUXILIARY_CARRY == AUXILIARY_CARRY, "AUX_CARRY"@);
    let s = spec_flag_item(s, v & ZERO == ZERO, "ZERO"@);
    let s = spec_flag_item(s, v & SIGN == SIGN, "SIGN"@);
    let s = spec_flag_item(s, v & OVERFLOW == OVERFLOW, "OVERFLOW"@);
    let s = spec_flag_item(s, v & DIRECTION == DIRECTION, "DIRECTION"@);
    let s = spec_flag_item(s, v & TRAP == TRAP, "TRAP"@);
    let s = spec_flag_item(s, v & INTERRUPT_ENABLE == INTERRUPT_ENABLE, "INTERRUPT_ENABLE"@);
    let s = spec_flag_item(s, v & NESTED_TASK == NESTED_TASK, "NESTED_TASK"@);
    let s = spec_flag_item(s, v & RESUME == RESUME, "RESUME"@);
    let s = spec_flag_item(s, v & VIRTUAL_8086_MODE == VIRTUAL_8086_MODE, "VIRTUAL_8086_MODE"@);
    let s = spec_flag_item(s, v & ALIGNMENT_CHECK == ALIGNMENT_CHECK, "ALIGNMENT_CHECK"@);
    let s = spec_flag_item(s, v & VIRTUAL_INTERRUPT == VIRTUAL_INTERRUPT, "VIRTUAL_INTERRUPT"@);
    let s = spec_flag_item(
        s,
        v & VIRTUAL_INTERRUPT_PENDING == VIRTUAL_INTERRUPT_PENDING,
        "VIRTUAL_INTERRUPT_PENDING"@,
    );
    let s = spec_flag_item(s, v & IDENTIFICATION == IDENTIFICATION, "IDENTIFICATION"@);
    s + "IOPL"@ + spec_iopl_digit(v)
}

/// Appends the flag `name` and the separator to `s` when `cond` holds.
fn push_flag(s: &mut String, cond: bool, name: &str)
    ensures
        final(s)@ == spec_flag_item(old(s)@, cond, name@),
{
    if cond {
        s.append(name);
        s.append(" | ");
    }
}

/// Wrapper to render a raw flag word for diagnostics.
#[derive(Clone, Copy, Debug, Hash, PartialEq, Eq)]
pub struct FlagsDisplay(pub u64);

impl FlagsDisplay {
    /// Renders the names of the set flags, each followed by a separator, and
    /// the I/O privilege level last.
    ///
    /// The rendering is for diagnostics only, never for a control decision.
    #[verifier::rlimit(50)]
    pub fn text(&self) -> (r: String)
        ensures
            r@ == spec_flags_text(self.0),
    {
        let v = self.0;
        let mut s = String::from_str("");
        proof {
            reveal_strlit("");
            assert(s@ =~= Seq::<char>::empty());
        }
        push_flag(&mut s, v & CARRY == CARRY, "CARRY");
        push_flag(&mut s, v & PARITY == PARITY, "PARITY");
        push_flag(&mut s, v & AUXILIARY_CARRY == AUXILIARY_CARRY, "AUX_CARRY");
        push_flag(&mut s, v & ZERO == ZERO, "ZERO");
        push_flag(&mut s, v & SIGN == SIGN, "SIGN");
        push_flag(&mut s, v & OVERFLOW == OVERFLOW, "OVERFLOW");
        push_flag(&mut s, v & DIRECTION == DIRECTION, "DIRECTION");
        push_flag(&mut s, v & TRAP == TRAP, "TRAP");
        push_flag(&mut s, v & INTERRUPT_ENABLE == INTERRUPT_ENABLE, "INTERRUPT_ENABLE");
        push_flag(&mut s, v & NESTED_TASK == NESTED_TASK, "NESTED_TASK");
        push_flag(&mut s, v & RESUME == RESUME, "RESUME");
        push_flag(&mut s, v & VIRTUAL_8086_MODE == VIRTUAL_8086_MODE, "VIRTUAL_8086_MODE");
        push_flag(&mut s, v & ALIGNMENT_CHECK == ALIGNMENT_CHECK, "ALIGNMENT_CHECK");
        push_flag(&mut s, v & VIRTUAL_INTERRUPT == VIRTUAL_INTERRUPT, "VIRTUAL_INTERRUPT");
        push_flag(
            &mut s,
            v & VIRTUAL_INTERRUPT_PENDING == VIRTUAL_INTERRUPT_PENDING,
            "VIRTUAL_INTERRUPT_PENDING",
        );
        push_flag(&mut s, v & IDENTIFICATION == IDENTIFICATION, "IDENTIFICATION");
        s.append("IOPL");
        let b = (v >> 12u64) & 3;
        if b == 0 {
            s.append("0");
        } else if b == 1 {
            s.append("1");
        } else if b == 2 {
            s.append("2");
        } else {
            s.append("3");
        }
        s
    }
}

} // verus!
