//! The per-component sizing table.
//!
//! The processor reports, for each extended component bit in `2..=62`, the
//! component's byte size, its fixed offset in the uncompacted format, its
//! owning enable register and its alignment demand in the compacted format.
//! A `SizingTable` caches those answers; the layout decoder reads them back
//! by bit index. Bits 0, 1 and 63 never carry an entry: the legacy
//! components are not individually sized, and bit 63 is no component.

use vstd::prelude::*;
use crate::state_components::StateComponentSizing;

verus! {

/// A table of capability-reported sizings, indexed by component bit.
pub struct SizingTable {
    entries: Vec<Option<StateComponentSizing>>,
}

impl SizingTable {
    /// The table always holds one slot per bitmap bit, and the slots of the
    /// legacy bits and of the compaction-indicator bit stay empty.
    pub closed spec fn wf(&self) -> bool {
        &&& self.entries@.len() == 64
        &&& self.entries@[0] is None
        &&& self.entries@[1] is None
        &&& self.entries@[63] is None
    }

    /// The entry recorded for bit `i`, `None` outside `0..64`.
    pub closed spec fn spec_entry(&self, i: int) -> Option<StateComponentSizing> {
        if 0 <= i < 64 {
            self.entries@[i]
        } else {
            None
        }
    }

    /// An empty table: no component has a recorded sizing.
    pub fn new() -> (t: SizingTable)
        ensures
            t.wf(),
            forall|i: int| t.spec_entry(i) is None,
    {
        let mut entries: Vec<Option<StateComponentSizing>> = Vec::new();
        let mut k: usize = 0;
        while k < 64
            invariant
                k <= 64,
                entries@.len() == k,
                forall|i: int| 0 <= i < k ==> entries@[i] is None,
            decreases 64 - k,
        {
            entries.push(None);
            k = k + 1;
        }
        SizingTable { entries }
    }

    /// Records the sizing of the component at `bit`.
    pub fn set(&mut self, bit: u8, sizing: StateComponentSizing)
        requires
            old(self).wf(),
            2 <= bit <= 62,
        ensures
            final(self).wf(),
            final(self).spec_entry(bit as int) == Some(sizing),
            forall|i: int| i != bit ==> final(self).spec_entry(i) == old(self).spec_entry(i),
    {
        self.entries.set(bit as usize, Some(sizing));
    }

    /// Clears the entry of the component at `bit`.
    pub fn clear(&mut self, bit: u8)
        requires
            old(self).wf(),
            2 <= bit <= 62,
        ensures
            final(self).wf(),
            final(self).spec_entry(bit as int) is None,
            forall|i: int| i != bit ==> final(self).spec_entry(i) == old(self).spec_entry(i),
    {
        self.entries.set(bit as usize, None);
    }

    /// The entry recorded for `bit`; `None` for the legacy bits, the
    /// compaction-indicator bit, and anything past the bitmap.
    pub fn get(&self, bit: u8) -> (r: Option<StateComponentSizing>)
        requires
            self.wf(),
        ensures
            r == self.spec_entry(bit as int),
    {
        if bit < 64 {
            self.entries[bit as usize]
        } else {
            None
        }
    }
}

} // verus!
