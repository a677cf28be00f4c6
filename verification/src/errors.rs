//! Error taxonomy of the save-area operations.

use vstd::prelude::*;

verus! {

/// The recoverable failures of this crate.
///
/// A processor that lacks the extended-state feature family altogether is not
/// an error value: the constructors that depend on capability data return
/// `None` in that case (absence, not a fault).
#[derive(Debug, Clone, Copy, PartialEq, Eq, Structural)]
pub enum XSaveError {
    /// The header marks a component present that the sizing table cannot
    /// describe, marks a component present that the compacted layout
    /// allocates no space for, or carries a compaction indicator with
    /// component bits set while its compaction bit is clear. Decoding on
    /// would yield wrong offsets, so this is reported, never tolerated.
    ConsistencyFault,
    /// The backing buffer could not be set up with the requested size.
    AllocationError,
    /// A computed offset and size would reach past the end of the buffer.
    BoundsViolation,
}

} // verus!
