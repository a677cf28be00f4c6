//! The 64-bit state-component bitmaps.
//!
//! One and the same 64-bit shape backs three hardware concepts: the user
//! feature-enable register, the supervisor feature-enable register, and the
//! present-components field of the save-area header. The compaction
//! indicator reuses it once more with bit 63 given a meaning of its own, so
//! it gets a distinct wrapper type.

use vstd::prelude::*;
use crate::bitops::{bit_is_set, lemma_bit_or_single};
use crate::state_components::StateComponent;

verus! {

/// A set of state components, one bit per component identity.
#[derive(Debug, Clone, Copy, PartialEq, Eq, Structural)]
pub struct StateComponentBitmap {
    /// The raw register value.
    pub bits: u64,
}

impl StateComponentBitmap {
    /// The component with bit index `i` is in the set. Meaningful for `i < 64`.
    pub open spec fn spec_contains(self, i: u64) -> bool {
        bit_is_set(self.bits, i)
    }

    /// Wraps a raw register value.
    pub fn new(bits: u64) -> (r: StateComponentBitmap)
        ensures
            r.bits == bits,
    {
        StateComponentBitmap { bits }
    }

    /// The empty set.
    pub fn empty() -> (r: StateComponentBitmap)
        ensures
            r.bits == 0,
            forall|i: u64| i < 64 ==> !r.spec_contains(i),
    {
        proof {
            assert forall|i: u64| i < 64 implies !bit_is_set(0u64, i) by {
                crate::bitops::lemma_zero_has_no_bit(i);
            }
        }
        StateComponentBitmap { bits: 0 }
    }

    /// Bit `bit` of the raw value is set.
    pub fn bit_set(self, bit: u8) -> (r: bool)
        requires
            bit < 64,
        ensures
            r == bit_is_set(self.bits, bit as u64),
    {
        self.bits & (1u64 << bit) != 0
    }

    /// Every bit selected by `mask` is clear.
    pub fn bits_are_zero(self, mask: u64) -> (r: bool)
        ensures
            r == (self.bits & mask == 0),
    {
        self.bits & mask == 0
    }

    /// Marks a state component present.
    pub fn set_is_present(&mut self, state_component: StateComponent)
        ensures
            final(self).bits == old(self).bits | (1u64 << state_component.spec_bit()),
            final(self).spec_contains(state_component.spec_bit()),
            forall|i: u64|
                i < 64 ==> final(self).spec_contains(i) == (old(self).spec_contains(i) || i
                    == state_component.spec_bit()),
    {
        let bit = state_component.bit();
        proof {
            assert forall|i: u64|
                i < 64 implies bit_is_set(self.bits | (1u64 << bit as u64), i) == (bit_is_set(
                self.bits,
                i,
            ) || i == bit as u64) by {
                lemma_bit_or_single(self.bits, bit as u64, i);
            }
        }
        self.bits = self.bits | (1u64 << bit);
        proof {
            lemma_bit_or_single(old(self).bits, bit as u64, bit as u64);
        }
    }

    /// A state component is in the set.
    pub fn is_present(self, state_component: StateComponent) -> (r: bool)
        ensures
            r == self.spec_contains(state_component.spec_bit()),
    {
        self.bit_set(state_component.bit())
    }

    /// The union of two component sets.
    pub fn union(self, other: StateComponentBitmap) -> (r: StateComponentBitmap)
        ensures
            r.bits == self.bits | other.bits,
            forall|i: u64|
                i < 64 ==> r.spec_contains(i) == (self.spec_contains(i) || other.spec_contains(i)),
    {
        proof {
            assert forall|i: u64|
                i < 64 implies bit_is_set(self.bits | other.bits, i) == (bit_is_set(self.bits, i)
                || bit_is_set(other.bits, i)) by {
                let a = self.bits;
                let b = other.bits;
                assert((a | b) & (1u64 << i) != 0 <==> (a & (1u64 << i) != 0 || b & (1u64 << i)
                    != 0)) by (bit_vector);
            }
        }
        StateComponentBitmap { bits: self.bits | other.bits }
    }
}

/// The compaction indicator of a save-area header.
///
/// Bit 63 says whether the extended region uses the compacted format; when it
/// does, the remaining bits say which components the compactor allocated
/// space for. Bit 63 is not a component and cannot be asked for as one.
#[derive(Debug, Clone, Copy, PartialEq, Eq, Structural)]
pub struct CompactionStateComponentBitmap {
    /// The raw register value, including the compaction bit.
    pub bitmap: StateComponentBitmap,
}

impl CompactionStateComponentBitmap {
    /// The component with bit index `i` is allocated space. Meaningful for
    /// `i < 63`: bit 63 is the compaction flag, not a component.
    pub open spec fn spec_contains(self, i: u64) -> bool {
        self.bitmap.spec_contains(i)
    }

    /// The extended region is compacted.
    pub open spec fn spec_is_compacted(self) -> bool {
        bit_is_set(self.bitmap.bits, 63)
    }

    /// Wraps a raw indicator value.
    pub fn new(bits: u64) -> (r: CompactionStateComponentBitmap)
        ensures
            r.bitmap.bits == bits,
    {
        CompactionStateComponentBitmap { bitmap: StateComponentBitmap { bits } }
    }

    /// An all-zero indicator: the uncompacted format.
    pub fn uncompacted() -> (r: CompactionStateComponentBitmap)
        ensures
            r.bitmap.bits == 0,
            !r.spec_is_compacted(),
    {
        proof {
            crate::bitops::lemma_zero_has_no_bit(63);
        }
        CompactionStateComponentBitmap { bitmap: StateComponentBitmap { bits: 0 } }
    }

    /// The underlying state-component bitmap.
    pub fn state_component_bitmap(self) -> (r: StateComponentBitmap)
        ensures
            r == self.bitmap,
    {
        self.bitmap
    }

    /// The extended region is compacted (bit 63).
    pub fn is_extended_region_compacted(self) -> (r: bool)
        ensures
            r == self.spec_is_compacted(),
    {
        self.bitmap.bit_set(63)
    }

    /// The compactor allocated space for a state component.
    pub fn is_present(self, state_component: StateComponent) -> (r: bool)
        ensures
            r == self.spec_contains(state_component.spec_bit()),
    {
        self.bitmap.is_present(state_component)
    }

    /// Bit `bit` of the raw value is set.
    pub fn bit_set(self, bit: u8) -> (r: bool)
        requires
            bit < 64,
        ensures
            r == bit_is_set(self.bitmap.bits, bit as u64),
    {
        self.bitmap.bit_set(bit)
    }

    /// Every bit selected by `mask` is clear.
    pub fn bits_are_zero(self, mask: u64) -> (r: bool)
        ensures
            r == (self.bitmap.bits & mask == 0),
    {
        self.bitmap.bits_are_zero(mask)
    }
}

} // verus!
