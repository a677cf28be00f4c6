//! The save-area header: the 64 bytes at offset 512 of every extended save
//! area. Its first eight bytes are the present-components bitmap, the next
//! eight the compaction indicator; the rest is reserved.

use vstd::prelude::*;
use crate::byte_codec::spec_u64_le;
use crate::state_component_bitmaps::{CompactionStateComponentBitmap, StateComponentBitmap};
use crate::state_components::StateComponent;

verus! {

/// Byte offset of the header within a save area.
pub const HEADER_OFFSET: usize = 512;

/// Byte offset of the compaction indicator within a save area.
pub const COMPACTION_INDICATOR_OFFSET: usize = 520;

/// Byte offset at which the meaningful part of the header ends; the bytes
/// from here to the extended region are reserved.
pub const HEADER_USED_END: usize = 528;

/// The save-area header, parsed into its two bitmaps.
#[derive(Debug, Clone, Copy, PartialEq, Eq, Structural)]
pub struct XSaveHeader {
    /// The components whose state the area holds.
    pub xstate_bv: StateComponentBitmap,
    /// Whether, and how, the extended region is compacted.
    pub xcomp_bv: CompactionStateComponentBitmap,
}

/// The header stored in a save area whose bytes are `s`.
pub open spec fn spec_parse_header(s: Seq<u8>) -> XSaveHeader
    recommends
        s.len() >= 576,
{
    XSaveHeader {
        xstate_bv: StateComponentBitmap { bits: spec_u64_le(s, 512) as u64 },
        xcomp_bv: CompactionStateComponentBitmap {
            bitmap: StateComponentBitmap { bits: spec_u64_le(s, 520) as u64 },
        },
    }
}

impl XSaveHeader {
    /// A header from its two bitmaps.
    pub fn new(xstate_bv: StateComponentBitmap, xcomp_bv: CompactionStateComponentBitmap) -> (r:
        XSaveHeader)
        ensures
            r.xstate_bv == xstate_bv,
            r.xcomp_bv == xcomp_bv,
    {
        XSaveHeader { xstate_bv, xcomp_bv }
    }

    /// The extended region is compacted.
    pub fn is_extended_region_compacted(&self) -> (r: bool)
        ensures
            r == self.xcomp_bv.spec_is_compacted(),
    {
        self.xcomp_bv.is_extended_region_compacted()
    }

    /// The area holds the given component's state.
    pub fn is_present(&self, state_component: StateComponent) -> (r: bool)
        ensures
            r == self.xstate_bv.spec_contains(state_component.spec_bit()),
    {
        self.xstate_bv.is_present(state_component)
    }
}

} // verus!
