//! Typestate view over 4-level and 5-level paging structures.
//!
//! A page-map entry is a 64-bit word carrying two compile-time markers: its
//! hierarchy level and its classification state. Classification reads the
//! actual bits, so the markers always agree with the stored word, and field
//! accessors that are only meaningful on a present, leaf or branch entry are
//! exposed only on values whose markers prove that shape.

use vstd::prelude::*;

use core::marker::PhantomData;

use crate::bits::lemma_single_bit_update_keeps_bit0;

verus! {

broadcast use vstd::array::group_array_axioms;

/// Mask of the next-level table address of a branch entry, shared by every
/// branch-capable level.
pub const BRANCH_ADDRESS_MASK: u64 = 0x000F_FFFF_FFFF_F000;

/// The present classification of the raw entry value `v`: the value itself
/// when bit 0 is set, and no value otherwise.
pub open spec fn spec_classify_present(v: u64) -> Option<u64> {
    if v & 1 == 1 {
        Some(v)
    } else {
        None
    }
}

/// The leaf classification of the raw entry value `v`: the value itself when
/// bit 7 is set, and no value otherwise.
pub open spec fn spec_classify_leaf(v: u64) -> Option<u64> {
    if v & 0x80 == 0x80 {
        Some(v)
    } else {
        None
    }
}

/// The branch classification of the raw entry value `v`: the value itself
/// when bit 7 is clear, and no value otherwise.
pub open spec fn spec_classify_branch(v: u64) -> Option<u64> {
    if v & 0x80 == 0x80 {
        None
    } else {
        Some(v)
    }
}

/// The raw entry value `v` with the frame address `a` spliced into the bits
/// selected by the mask `m`.
pub open spec fn spec_set_frame(v: u64, a: u64, m: u64) -> u64 {
    (v & !m) | (a & m)
}

/// The frame address held by the raw entry value `v` under the mask `m`: the
/// aligned physical base, with the control bits masked out.
pub open spec fn spec_frame(v: u64, m: u64) -> u64 {
    v & m
}

/// Classifying a raw entry whose present bit is set hands back the identical
/// raw value, so dropping the classification and classifying again yields
/// the value unchanged.
pub proof fn lemma_classify_present_roundtrip(v: u64)
    requires
        v & 1 == 1,
    ensures
        spec_classify_present(v) == Some(v),
        spec_classify_present(v) matches Some(w) ==> spec_classify_present(w) == Some(v),
{
}

/// At a level whose entries may be either shape, exactly one of the leaf and
/// branch classifications succeeds, decided by bit 7 alone, and the one that
/// succeeds hands back the identical raw value.
pub proof fn lemma_leaf_branch_exclusive(v: u64)
    ensures
        (spec_classify_leaf(v) is Some) <==> (v & 0x80 == 0x80),
        (spec_classify_branch(v) is Some) <==> !(spec_classify_leaf(v) is Some),
        spec_classify_leaf(v) matches Some(w) ==> w == v,
        spec_classify_branch(v) matches Some(w) ==> w == v,
{
}

/// Splicing a frame address into an entry and reading the frame back yields
/// exactly the address masked to the frame bits of the level:
/// `set_leaf(a).frame() == a & mask`, whatever the entry held before.
pub proof fn lemma_frame_of_set_frame(v: u64, a: u64, m: u64)
    ensures
        spec_frame(spec_set_frame(v, a, m), m) == a & m,
{
    assert(((v & !m) | (a & m)) & m == a & m) by (bit_vector);
}

/// Representation of a page table: exactly 512 entries of one hierarchy
/// level.
#[derive(Debug, Hash, PartialEq, Eq)]
pub struct PageTable<L: PageMapLevel>([PageMapEntry<L, Unclassified>; 512]);

impl<L: PageMapLevel> View for PageTable<L> {
    type V = Seq<PageMapEntry<L, Unclassified>>;

    closed spec fn view(&self) -> Seq<PageMapEntry<L, Unclassified>> {
        self.0@
    }
}

impl<L: PageMapLevel> Clone for PageTable<L> {
    fn clone(&self) -> (r: Self)
        ensures
            r == *self,
    {
        *self
    }
}

impl<L: PageMapLevel> Copy for PageTable<L> {

}

impl<L: PageMapLevel> PageTable<L> {
    /// Creates an empty [`PageTable`]: 512 unclassified all-zero entries.
    pub fn new() -> (r: Self)
        ensures
            r@.len() == 512,
            forall|i: int| 0 <= i < 512 ==> (#[trigger] r@[i])@ == 0,
    {
        let entry = PageMapEntry::<L, Unclassified>::new();
        let table = PageTable([entry;512]);
        proof {
            assert(table.0 == vstd::array::spec_array_fill_for_copy_type::<
                PageMapEntry<L, Unclassified>,
                512,
            >(entry));
            assert(forall|i: int| 0 <= i < 512 ==> table@[i] == entry);
        }
        table
    }

    /// Gets the [`PageMapEntry`] located at `index`.
    ///
    /// Returns [`None`] if `index` is out of bounds: the table holds exactly
    /// 512 entries, so every index up to 511 succeeds and every larger index
    /// is reported.
    pub fn get(&self, index: usize) -> (r: Option<PageMapEntry<L, Unclassified>>)
        ensures
            match r {
                Some(e) => index < 512 && e == self@[index as int],
                None => index >= 512,
            },
    {
        if !(index < 512) {
            return None;
        }
        Some(self.0[index])
    }

    /// Sets the [`PageMapEntry`] located at `index` to `entry`.
    ///
    /// # Errors
    /// Returns [`Err`] holding `entry` unchanged if `index` is out of
    /// bounds, leaving the table as it was; every index up to 511 succeeds.
    pub fn set(&mut self, index: usize, entry: PageMapEntry<L, Unclassified>) -> (r: Result<
        (),
        PageMapEntry<L, Unclassified>,
    >)
        ensures
            match r {
                Ok(_) => index < 512 && final(self)@ == old(self)@.update(index as int, entry),
                Err(e) => index >= 512 && e == entry && final(self)@ == old(self)@,
            },
    {
        if !(index < 512) {
            return Err(entry);
        }
        self.0[index] = entry;
        Ok(())
    }
}

impl<L: PageMapLevel> Default for PageTable<L> {
    fn default() -> (r: Self)
        ensures
            r@.len() == 512,
            forall|i: int| 0 <= i < 512 ==> (#[trigger] r@[i])@ == 0,
    {
        Self::new()
    }
}

/// A 64-bit page table entry.
#[derive(Debug, Hash, PartialEq, Eq)]
pub struct PageMapEntry<L: PageMapLevel, S: PageMapEntryState> {
    /// The underlying value of the [`PageMapEntry`].
    value: u64,
    /// Phantom data carrying the compile-time markers.
    phantom: PhantomData<(L, S)>,
}

impl<L: PageMapLevel, S: PageMapEntryState> View for PageMapEntry<L, S> {
    type V = u64;

    closed spec fn view(&self) -> u64 {
        self.value
    }
}

impl<L: PageMapLevel, S: PageMapEntryState> Clone for PageMapEntry<L, S> {
    fn clone(&self) -> (r: Self)
        ensures
            r == *self,
    {
        *self
    }
}

impl<L: PageMapLevel, S: PageMapEntryState> Copy for PageMapEntry<L, S> {

}

impl<L: PageMapLevel> PageMapEntry<L, Unclassified> {
    /// Creates a new [`PageMapEntry`] that is unclassified and all zero.
    pub fn new() -> (r: Self)
        ensures
            r@ == 0,
    {
        PageMapEntry { value: 0, phantom: PhantomData }
    }

    /// Creates an unclassified [`PageMapEntry`] from its raw representation,
    /// as read from a table slot in memory.
    pub fn from_raw(raw: u64) -> (r: Self)
        ensures
            r@ == raw,
    {
        PageMapEntry { value: raw, phantom: PhantomData }
    }
}

impl<L: PageMapLevel, S: PageMapEntryState> PageMapEntry<L, S> {
    /// The raw value agrees with the compile-time state marker `S`.
    pub open spec fn wf(self) -> bool {
        S::state_ok(self@)
    }

    /// Returns the raw representation of this [`PageMapEntry`], as it is
    /// stored in a table slot in memory.
    pub fn to_raw(self) -> (r: u64)
        ensures
            r == self@,
    {
        self.value
    }

    /// Returns this [`PageMapEntry`] as a [`PageMapEntry<L, Unclassified>`],
    /// with the identical raw value.
    pub fn unclassified(self) -> (r: PageMapEntry<L, Unclassified>)
        ensures
            r@ == self@,
    {
        PageMapEntry { value: self.value, phantom: PhantomData }
    }

    /// Returns [`PageMapEntry<L, Present>`] holding the identical raw value
    /// if the [`PageMapEntry`]'s present bit is set; otherwise, this
    /// function returns [`None`].
    pub fn present(self) -> (r: Option<PageMapEntry<L, Present>>)
        ensures
            match r {
                Some(e) => spec_classify_present(self@) == Some(e@) && e@ == self@ && e.wf(),
                None => spec_classify_present(self@) is None,
            },
    {
        if !(self.value & 1 == 1) {
            return None;
        }
        Some(PageMapEntry { value: self.value, phantom: PhantomData })
    }

    /// Sets the present bit in this [`PageMapEntry`].
    pub fn set_present(self) -> (r: PageMapEntry<L, Present>)
        ensures
            r@ == self@ | 1,
            r.wf(),
    {
        proof {
            let v = self.value;
            assert((v | 1) & 1 == 1) by (bit_vector);
        }
        PageMapEntry { value: self.value | 1, phantom: PhantomData }
    }

    /// Clears the present bit in this [`PageMapEntry`].
    pub fn clear_present(self) -> (r: PageMapEntry<L, Unclassified>)
        ensures
            r@ == self@ & !1u64,
            spec_classify_present(r@) is None,
    {
        proof {
            let v = self.value;
            assert((v & !1u64) & 1 != 1) by (bit_vector);
        }
        PageMapEntry { value: self.value & !1u64, phantom: PhantomData }
    }
}

impl<L: PageMapLevel, S: PageMapEntryPresent> PageMapEntry<L, S> {
    /// Returns `true` if the region of memory controlled by this
    /// [`PageMapEntry`] is writable.
    pub fn writable(self) -> (r: bool)
        ensures
            r == (self@ & 2 == 2),
    {
        self.value & 2 == 2
    }

    /// Sets whether the region of memory controlled by this [`PageMapEntry`]
    /// should be writable.
    pub fn set_writable(self, writable: bool) -> (r: Self)
        requires
            self.wf(),
        ensures
            r@ == (self@ & !(1u64 << 1)) | ((if writable { 1u64 } else { 0u64 }) << 1),
            r.wf(),
    {
        let b: u64 = if writable { 1 } else { 0 };
        proof {
            S::lemma_state_is_present(self.value);
            lemma_single_bit_update_keeps_bit0(self.value, b, 1);
            S::lemma_state_is_present((self.value & !(1u64 << 1)) | (b << 1));
        }
        PageMapEntry { value: (self.value & !(1u64 << 1u64)) | (b << 1u64), phantom: PhantomData }
    }

    /// Returns `true` if the region of memory controlled by this
    /// [`PageMapEntry`] is accessible to userspace.
    pub fn user(self) -> (r: bool)
        ensures
            r == (self@ & 4 == 4),
    {
        self.value & 4 == 4
    }

    /// Sets whether the region of memory controlled by this [`PageMapEntry`]
    /// should be accessible to userspace.
    pub fn set_user(self, accessible: bool) -> (r: Self)
        requires
            self.wf(),
        ensures
            r@ == (self@ & !(1u64 << 2)) | ((if accessible { 1u64 } else { 0u64 }) << 2),
            r.wf(),
    {
        let b: u64 = if accessible { 1 } else { 0 };
        proof {
            S::lemma_state_is_present(self.value);
            lemma_single_bit_update_keeps_bit0(self.value, b, 2);
            S::lemma_state_is_present((self.value & !(1u64 << 2)) | (b << 2));
        }
        PageMapEntry { value: (self.value & !(1u64 << 2u64)) | (b << 2u64), phantom: PhantomData }
    }

    /// Returns `true` if the write-through bit is set.
    ///
    /// This bit helps determine the memory type used to access the item
    /// pointed to by this [`PageMapEntry`].
    pub fn write_through(self) -> (r: bool)
        ensures
            r == (self@ & 8 == 8),
    {
        self.value & 8 == 8
    }

    /// Sets the write-through bit.
    ///
    /// This bit helps determine the memory type used to access the item
    /// pointed to by this [`PageMapEntry`].
    pub fn set_write_through(self, write_through: bool) -> (r: Self)
        requires
            self.wf(),
        ensures
            r@ == (self@ & !(1u64 << 3)) | ((if write_through { 1u64 } else { 0u64 }) << 3),
            r.wf(),
    {
        let b: u64 = if write_through { 1 } else { 0 };
        proof {
            S::lemma_state_is_present(self.value);
            lemma_single_bit_update_keeps_bit0(self.value, b, 3);
            S::lemma_state_is_present((self.value & !(1u64 << 3)) | (b << 3));
        }
        PageMapEntry { value: (self.value & !(1u64 << 3u64)) | (b << 3u64), phantom: PhantomData }
    }

    /// Returns `true` if the cache-disable bit is set.
    ///
    /// This bit helps determine the memory type used to access the item
    /// pointed to by this [`PageMapEntry`].
    pub fn cache_disable(self) -> (r: bool)
        ensures
            r == (self@ & 0x10 == 0x10),
    {
        self.value & 0x10 == 0x10
    }

    /// Sets the cache-disable bit.
    ///
    /// This bit helps determine the memory type used to access the item
    /// pointed to by this [`PageMapEntry`].
    pub fn set_cache_disable(self, cache_disable: bool) -> (r: Self)
        requires
            self.wf(),
        ensures
            r@ == (self@ & !(1u64 << 4)) | ((if cache_disable { 1u64 } else { 0u64 }) << 4),
            r.wf(),
    {
        let b: u64 = if cache_disable { 1 } else { 0 };
        proof {
            S::lemma_state_is_present(self.value);
            lemma_single_bit_update_keeps_bit0(self.value, b, 4);
            S::lemma_state_is_present((self.value & !(1u64 << 4)) | (b << 4));
        }
        PageMapEntry { value: (self.value & !(1u64 << 4u64)) | (b << 4u64), phantom: PhantomData }
    }

    /// Returns `true` if the region of memory controlled by this
    /// [`PageMapEntry`] has been accessed.
    pub fn accessed(self) -> (r: bool)
        ensures
            r == (self@ & 0x20 == 0x20),
    {
        self.value & 0x20 == 0x20
    }

    /// Sets whether the region of memory controlled by this [`PageMapEntry`]
    /// should be marked as having been accessed.
    pub fn set_accessed(self, accessed: bool) -> (r: Self)
        requires
            self.wf(),
        ensures
            r@ == (self@ & !(1u64 << 5)) | ((if accessed { 1u64 } else { 0u64 }) << 5),
            r.wf(),
    {
        let b: u64 = if accessed { 1 } else { 0 };
        proof {
            S::lemma_state_is_present(self.value);
            lemma_single_bit_update_keeps_bit0(self.value, b, 5);
            S::lemma_state_is_present((self.value & !(1u64 << 5)) | (b << 5));
        }
        PageMapEntry { value: (self.value & !(1u64 << 5u64)) | (b << 5u64), phantom: PhantomData }
    }

    /// Returns `true` if HLAT paging should restart with ordinary paging
    /// when translation encounters this [`PageMapEntry`].
    pub fn restart(self) -> (r: bool)
        ensures
            r == (self@ & 0x800 == 0x800),
    {
        self.value & 0x800 == 0x800
    }

    /// Sets whether HLAT paging should restart with ordinary paging when
    /// translation encounters this [`PageMapEntry`].
    pub fn set_restart(self, restart: bool) -> (r: Self)
        requires
            self.wf(),
        ensures
            r@ == (self@ & !(1u64 << 11)) | ((if restart { 1u64 } else { 0u64 }) << 11),
            r.wf(),
    {
        let b: u64 = if restart { 1 } else { 0 };
        proof {
            S::lemma_state_is_present(self.value);
            lemma_single_bit_update_keeps_bit0(self.value, b, 11);
            S::lemma_state_is_present((self.value & !(1u64 << 11)) | (b << 11));
        }
        PageMapEntry { value: (self.value & !(1u64 << 11u64)) | (b << 11u64), phantom: PhantomData }
    }

    /// Returns `true` if the region of memory controlled by this
    /// [`PageMapEntry`] cannot be executed.
    pub fn no_execute(self) -> (r: bool)
        ensures
            r == (self@ & (1u64 << 63) == (1u64 << 63)),
    {
        self.value & (1u64 << 63u64) == (1u64 << 63u64)
    }

    /// Sets whether the region of memory controlled by this [`PageMapEntry`]
    /// should be not executable.
    pub fn set_no_execute(self, no_execute: bool) -> (r: Self)
        requires
            self.wf(),
        ensures
            r@ == (self@ & !(1u64 << 63)) | ((if no_execute { 1u64 } else { 0u64 }) << 63),
            r.wf(),
    {
        let b: u64 = if no_execute { 1 } else { 0 };
        proof {
            S::lemma_state_is_present(self.value);
            lemma_single_bit_update_keeps_bit0(self.value, b, 63);
            S::lemma_state_is_present((self.value & !(1u64 << 63)) | (b << 63));
        }
        PageMapEntry { value: (self.value & !(1u64 << 63u64)) | (b << 63u64), phantom: PhantomData }
    }
}

impl<L: LeafSupport, S: PageMapEntryPresent> PageMapEntry<L, S> {
    /// Sets the [`PageMapEntry`] to be a leaf entry controlling the frame at
    /// `leaf_address`.
    ///
    /// The address is masked against the frame bits of the level before it
    /// is spliced in: low bits outside the mask are silently dropped, as the
    /// hardware ignores them.
    pub fn set_leaf(self, leaf_address: u64) -> (r: PageMapEntry<L, Leaf>)
        requires
            self.wf(),
        ensures
            r@ == spec_set_frame(self@, leaf_address, L::spec_address_mask()),
            spec_frame(r@, L::spec_address_mask()) == leaf_address & L::spec_address_mask(),
            r.wf(),
    {
        let mask = L::address_mask();
        proof {
            S::lemma_state_is_present(self.value);
            L::lemma_level_facts();
            let v = self.value;
            let a = leaf_address;
            let m = mask;
            assert(((v & !m) | (a & m)) & 1 == v & 1) by (bit_vector)
                requires
                    m & 1 == 0,
            ;
            lemma_frame_of_set_frame(v, a, m);
        }
        PageMapEntry { value: (self.value & !mask) | (leaf_address & mask), phantom: PhantomData }
    }
}

impl<L: BranchSupport, S: PageMapEntryPresent> PageMapEntry<L, S> {
    /// Sets the [`PageMapEntry`] to be a branch entry pointing at the
    /// next-level table at `branch_address`.
    ///
    /// The address is masked against the shared branch mask before it is
    /// spliced in: low bits outside the mask are silently dropped, as the
    /// hardware ignores them.
    pub fn set_branch(self, branch_address: u64) -> (r: PageMapEntry<L, Branch>)
        requires
            self.wf(),
        ensures
            r@ == spec_set_frame(self@, branch_address, BRANCH_ADDRESS_MASK),
            spec_frame(r@, BRANCH_ADDRESS_MASK) == branch_address & BRANCH_ADDRESS_MASK,
            r.wf(),
    {
        let mask = BRANCH_ADDRESS_MASK;
        proof {
            S::lemma_state_is_present(self.value);
            let v = self.value;
            let a = branch_address;
            let m = mask;
            assert(((v & !m) | (a & m)) & 1 == v & 1) by (bit_vector)
                requires
                    m == 0x000F_FFFF_FFFF_F000u64,
            ;
            lemma_frame_of_set_frame(v, a, m);
        }
        PageMapEntry { value: (self.value & !mask) | (branch_address & mask), phantom: PhantomData }
    }
}

impl<L: UnconditionalLeafSupport, S: PageMapEntryPresent> PageMapEntry<L, S> {
    /// Returns this [`PageMapEntry`] as a [`PageMapEntry<L, Leaf>`].
    ///
    /// Entries of this level are unconditionally leaf entries once present,
    /// so the conversion needs no runtime test and cannot fail.
    pub fn leaf(self) -> (r: PageMapEntry<L, Leaf>)
        requires
            self.wf(),
        ensures
            r@ == self@,
            r.wf(),
    {
        proof {
            S::lemma_state_is_present(self.value);
        }
        PageMapEntry { value: self.value, phantom: PhantomData }
    }
}

impl<L: UnconditionalBranchSupport, S: PageMapEntryPresent> PageMapEntry<L, S> {
    /// Returns this [`PageMapEntry`] as a [`PageMapEntry<L, Branch>`].
    ///
    /// Entries of this level are unconditionally branch entries once
    /// present, so the conversion needs no runtime test and cannot fail.
    pub fn branch(self) -> (r: PageMapEntry<L, Branch>)
        requires
            self.wf(),
        ensures
            r@ == self@,
            r.wf(),
    {
        proof {
            S::lemma_state_is_present(self.value);
        }
        PageMapEntry { value: self.value, phantom: PhantomData }
    }
}

impl<L: BranchLeafSupport, S: PageMapEntryPresent> PageMapEntry<L, S> {
    /// Returns [`PageMapEntry<L, Leaf>`] holding the identical raw value if
    /// this [`PageMapEntry`] is a leaf entry; otherwise, this function
    /// returns [`None`].
    pub fn leaf_opt(self) -> (r: Option<PageMapEntry<L, Leaf>>)
        requires
            self.wf(),
        ensures
            match r {
                Some(e) => spec_classify_leaf(self@) == Some(e@) && e@ == self@ && e.wf(),
                None => spec_classify_leaf(self@) is None,
            },
    {
        if !self.is_leaf() {
            return None;
        }
        proof {
            S::lemma_state_is_present(self.value);
        }
        Some(PageMapEntry { value: self.value, phantom: PhantomData })
    }

    /// Returns [`PageMapEntry<L, Branch>`] holding the identical raw value
    /// if this [`PageMapEntry`] is a branch entry; otherwise, this function
    /// returns [`None`].
    pub fn branch_opt(self) -> (r: Option<PageMapEntry<L, Branch>>)
        requires
            self.wf(),
        ensures
            match r {
                Some(e) => spec_classify_branch(self@) == Some(e@) && e@ == self@ && e.wf(),
                None => spec_classify_branch(self@) is None,
            },
    {
        if self.is_leaf() {
            return None;
        }
        proof {
            S::lemma_state_is_present(self.value);
        }
        Some(PageMapEntry { value: self.value, phantom: PhantomData })
    }

    /// Returns `true` if this [`PageMapEntry`] is a leaf entry.
    fn is_leaf(&self) -> (r: bool)
        ensures
            r == (self@ & 0x80 == 0x80),
    {
        self.value & 0x80 == 0x80
    }
}

impl<L: LeafSupport> PageMapEntry<L, Leaf> {
    /// Returns `true` if the region of memory controlled by this
    /// [`PageMapEntry`] has been written to.
    pub fn dirty(self) -> (r: bool)
        ensures
            r == (self@ & 0x40 == 0x40),
    {
        self.value & 0x40 == 0x40
    }

    /// Sets whether the region of memory controlled by this [`PageMapEntry`]
    /// has been written to.
    pub fn set_dirty(self, dirty: bool) -> (r: Self)
        requires
            self.wf(),
        ensures
            r@ == (self@ & !(1u64 << 6)) | ((if dirty { 1u64 } else { 0u64 }) << 6),
            r.wf(),
    {
        let b: u64 = if dirty { 1 } else { 0 };
        proof {
            lemma_single_bit_update_keeps_bit0(self.value, b, 6);
        }
        PageMapEntry { value: (self.value & !(1u64 << 6u64)) | (b << 6u64), phantom: PhantomData }
    }

    /// Returns `true` if the region of memory controlled by this
    /// [`PageMapEntry`] should be translated globally.
    pub fn global(self) -> (r: bool)
        ensures
            r == (self@ & 0x100 == 0x100),
    {
        self.value & 0x100 == 0x100
    }

    /// Sets whether the region of memory controlled by this [`PageMapEntry`]
    /// should be translated globally.
    pub fn set_global(self, global: bool) -> (r: Self)
        requires
            self.wf(),
        ensures
            r@ == (self@ & !(1u64 << 8)) | ((if global { 1u64 } else { 0u64 }) << 8),
            r.wf(),
    {
        let b: u64 = if global { 1 } else { 0 };
        proof {
            lemma_single_bit_update_keeps_bit0(self.value, b, 8);
        }
        PageMapEntry { value: (self.value & !(1u64 << 8u64)) | (b << 8u64), phantom: PhantomData }
    }

    /// Returns `true` if the PAT bit is set, at the position the level fixes
    /// for it.
    ///
    /// This bit helps determine the memory type used to access the item
    /// pointed to by this [`PageMapEntry`].
    pub fn pat(self) -> (r: bool)
        ensures
            r == (self@ & (1u64 << L::spec_pat_bit()) == (1u64 << L::spec_pat_bit())),
    {
        proof {
            L::lemma_level_facts();
        }
        let p = L::pat_bit();
        self.value & (1u64 << p) == (1u64 << p)
    }

    /// Sets the PAT bit, at the position the level fixes for it.
    ///
    /// This bit helps determine the memory type used to access the item
    /// pointed to by this [`PageMapEntry`].
    pub fn set_pat(self, pat: bool) -> (r: Self)
        requires
            self.wf(),
        ensures
            r@ == (self@ & !(1u64 << L::spec_pat_bit())) | ((if pat { 1u64 } else { 0u64 })
                << L::spec_pat_bit()),
            r.wf(),
    {
        let b: u64 = if pat { 1 } else { 0 };
        proof {
            L::lemma_level_facts();
        }
        let p = L::pat_bit();
        proof {
            lemma_single_bit_update_keeps_bit0(self.value, b, p);
        }
        PageMapEntry { value: (self.value & !(1u64 << p)) | (b << p), phantom: PhantomData }
    }

    /// Returns the base address of the frame of memory controlled by this
    /// [`PageMapEntry`]: the raw value under the frame mask of the level,
    /// with the control bits masked out, so only the aligned physical frame
    /// base is handed back.
    pub fn frame(self) -> (r: u64)
        ensures
            r == spec_frame(self@, L::spec_address_mask()),
            r & !L::spec_address_mask() == 0,
    {
        proof {
            crate::bits::lemma_mask_keeps_only_mask_bits(self.value, L::spec_address_mask());
        }
        self.value & L::address_mask()
    }
}

impl<L: BranchSupport> PageMapEntry<L, Branch> {
    /// Returns the base address of the next level of the page table
    /// hierarchy: the raw value under the shared branch mask, with the
    /// control bits masked out, so only the aligned table base is handed
    /// back.
    pub fn frame(self) -> (r: u64)
        ensures
            r == spec_frame(self@, BRANCH_ADDRESS_MASK),
            r & !BRANCH_ADDRESS_MASK == 0,
    {
        proof {
            crate::bits::lemma_mask_keeps_only_mask_bits(self.value, BRANCH_ADDRESS_MASK);
        }
        self.value & BRANCH_ADDRESS_MASK
    }
}

impl<L: PageMapLevel> Default for PageMapEntry<L, Unclassified> {
    fn default() -> (r: Self)
        ensures
            r@ == 0,
    {
        Self::new()
    }
}

/// The lowest level of the [`PageTable`] hierarchy.
#[derive(Clone, Copy, Debug, Hash, PartialEq, Eq)]
pub struct Pml1e;

/// The second level of the [`PageTable`] hierarchy.
#[derive(Clone, Copy, Debug, Hash, PartialEq, Eq)]
pub struct Pml2e;

/// The third lowest level of the [`PageTable`] hierarchy.
#[derive(Clone, Copy, Debug, Hash, PartialEq, Eq)]
pub struct Pml3e;

/// The highest or second highest level of the [`PageTable`] hierarchy.
///
/// Its place depends on whether 5-level paging has been enabled.
#[derive(Clone, Copy, Debug, Hash, PartialEq, Eq)]
pub struct Pml4e;

/// The highest level of the [`PageTable`] hierarchy.
///
/// This may not be enabled, as 4-level paging is far more common.
#[derive(Clone, Copy, Debug, Hash, PartialEq, Eq)]
pub struct Pml5e;

/// Marker trait indicating that the implementer is a valid page map level.
pub trait PageMapLevel: Copy + PageMapLevelSealed {

}

impl PageMapLevel for Pml1e {

}

impl PageMapLevel for Pml2e {

}

impl PageMapLevel for Pml3e {

}

impl PageMapLevel for Pml4e {

}

impl PageMapLevel for Pml5e {

}

/// Marker trait indicating that the [`PageMapEntry`]s of that
/// [`PageMapLevel`] could be leaf entries, with the per-level constants of
/// the leaf layout.
pub trait LeafSupport: PageMapLevel {
    /// The position of the PAT bit at this level.
    spec fn spec_pat_bit() -> u64;

    /// The mask of the frame address bits of a leaf entry at this level.
    spec fn spec_address_mask() -> u64;

    /// Returns the position of the PAT bit at this level.
    fn pat_bit() -> (r: u64)
        ensures
            r == Self::spec_pat_bit(),
    ;

    /// Returns the mask of the frame address bits of a leaf entry at this
    /// level.
    fn address_mask() -> (r: u64)
        ensures
            r == Self::spec_address_mask(),
    ;

    /// The per-level constants stay clear of the fixed control bits: the PAT
    /// bit sits between the accessed and restart bits, and the frame mask
    /// leaves bit 0 to the present bit.
    proof fn lemma_level_facts()
        ensures
            6 <= Self::spec_pat_bit() < 13,
            Self::spec_address_mask() & 1 == 0,
    ;
}

impl LeafSupport for Pml1e {
    open spec fn spec_pat_bit() -> u64 {
        7
    }

    open spec fn spec_address_mask() -> u64 {
        0x000F_FFFF_FFFF_F000
    }

    fn pat_bit() -> u64 {
        7
    }

    fn address_mask() -> u64 {
        0x000F_FFFF_FFFF_F000
    }

    proof fn lemma_level_facts() {
        assert(0x000F_FFFF_FFFF_F000u64 & 1 == 0) by (bit_vector);
    }
}

impl LeafSupport for Pml2e {
    open spec fn spec_pat_bit() -> u64 {
        12
    }

    open spec fn spec_address_mask() -> u64 {
        0x000F_FFFF_FFE0_0000
    }

    fn pat_bit() -> u64 {
        12
    }

    fn address_mask() -> u64 {
        0x000F_FFFF_FFE0_0000
    }

    proof fn lemma_level_facts() {
        assert(0x000F_FFFF_FFE0_0000u64 & 1 == 0) by (bit_vector);
    }
}

impl LeafSupport for Pml3e {
    open spec fn spec_pat_bit() -> u64 {
        12
    }

    open spec fn spec_address_mask() -> u64 {
        0x000F_FFFF_C000_0000
    }

    fn pat_bit() -> u64 {
        12
    }

    fn address_mask() -> u64 {
        0x000F_FFFF_C000_0000
    }

    proof fn lemma_level_facts() {
        assert(0x000F_FFFF_C000_0000u64 & 1 == 0) by (bit_vector);
    }
}

/// Marker trait indicating that the [`PageMapEntry`]s of that
/// [`PageMapLevel`] could be branch entries.
pub trait BranchSupport: PageMapLevel {

}

impl BranchSupport for Pml5e {

}

impl BranchSupport for Pml4e {

}

impl BranchSupport for Pml3e {

}

impl BranchSupport for Pml2e {

}

/// Marker trait indicating that the [`PageMapEntry`]s of that
/// [`PageMapLevel`] could be either branch or leaf entries, decided by one
/// runtime bit.
pub trait BranchLeafSupport: LeafSupport + BranchSupport {

}

impl BranchLeafSupport for Pml2e {

}

impl BranchLeafSupport for Pml3e {

}

/// Marker trait indicating that the [`PageMapEntry`]s of that
/// [`PageMapLevel`] are unconditionally leaf entries once present.
pub trait UnconditionalLeafSupport: LeafSupport {

}

impl UnconditionalLeafSupport for Pml1e {

}

/// Marker trait indicating that the [`PageMapEntry`]s of that
/// [`PageMapLevel`] are unconditionally branch entries once present.
pub trait UnconditionalBranchSupport: BranchSupport {

}

impl UnconditionalBranchSupport for Pml5e {

}

impl UnconditionalBranchSupport for Pml4e {

}

/// Marker struct indicating that the [`PageMapEntry`] has not been
/// classified.
#[derive(Clone, Copy, Debug, Hash, PartialEq, Eq)]
pub struct Unclassified;

/// Marker struct indicating that the [`PageMapEntry`] is present.
#[derive(Clone, Copy, Debug, Hash, PartialEq, Eq)]
pub struct Present;

/// Marker struct indicating that the [`PageMapEntry`] is a leaf entry.
#[derive(Clone, Copy, Debug, Hash, PartialEq, Eq)]
pub struct Leaf;

/// Marker struct indicating that the [`PageMapEntry`] is a branch entry.
#[derive(Clone, Copy, Debug, Hash, PartialEq, Eq)]
pub struct Branch;

/// Marker trait indicating that the implementer is a valid state of a
/// [`PageMapEntry`], with the condition the raw value must meet for the
/// state marker to be truthful.
pub trait PageMapEntryState: Copy + PageMapEntryStateSealed {
    /// The condition the raw value `v` meets in this state.
    spec fn state_ok(v: u64) -> bool;
}

impl PageMapEntryState for Unclassified {
    open spec fn state_ok(v: u64) -> bool {
        true
    }
}

impl PageMapEntryState for Present {
    open spec fn state_ok(v: u64) -> bool {
        v & 1 == 1
    }
}

impl PageMapEntryState for Leaf {
    open spec fn state_ok(v: u64) -> bool {
        v & 1 == 1
    }
}

impl PageMapEntryState for Branch {
    open spec fn state_ok(v: u64) -> bool {
        v & 1 == 1
    }
}

/// Marker trait indicating that the [`PageMapEntryState`] is a subset of
/// [`Present`]: the raw value of an entry in such a state has its present
/// bit set.
pub trait PageMapEntryPresent: PageMapEntryState {
    /// In a present state the state condition is exactly the present bit.
    proof fn lemma_state_is_present(v: u64)
        ensures
            Self::state_ok(v) <==> (v & 1 == 1),
    ;
}

impl PageMapEntryPresent for Present {
    proof fn lemma_state_is_present(v: u64) {
    }
}

impl PageMapEntryPresent for Leaf {
    proof fn lemma_state_is_present(v: u64) {
    }
}

impl PageMapEntryPresent for Branch {
    proof fn lemma_state_is_present(v: u64) {
    }
}

/// Marker trait closing [`PageMapLevel`] over the five levels this crate
/// defines.
pub trait PageMapLevelSealed {

}

impl PageMapLevelSealed for Pml1e {

}

impl PageMapLevelSealed for Pml2e {

}

impl PageMapLevelSealed for Pml3e {

}

impl PageMapLevelSealed for Pml4e {

}

impl PageMapLevelSealed for Pml5e {

}

/// Marker trait closing [`PageMapEntryState`] over the four states this
/// crate defines.
pub trait PageMapEntryStateSealed {

}

impl PageMapEntryStateSealed for Unclassified {

}

impl PageMapEntryStateSealed for Present {

}

impl PageMapEntryStateSealed for Leaf {

}

impl PageMapEntryStateSealed for Branch {

}

} // verus!
