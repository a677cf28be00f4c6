//! Ownership of a save-area buffer.
//!
//! An `XSaveArea` owns the raw bytes of one extended save area: 512 bytes of
//! legacy region, 64 bytes of header, and the extended region after them.
//! The save and restore instructions that fill and read such a buffer live
//! outside this crate; here the buffer is allocated, inspected and edited as
//! plain bytes.

use vstd::prelude::*;
use crate::byte_codec::{read_u64_le, write_u64_le};
use crate::errors::XSaveError;
use crate::fxsave::{spec_is_parsed_fxsave, FXSaveArea};
use crate::fxsave_domain::FpuOperatingMode;
use crate::xsave_header::{spec_parse_header, XSaveHeader};

verus! {

/// The least size a save area can have: the legacy region and the header,
/// after which the extended region begins.
pub const EXTENDED_REGION_OFFSET: usize = 576;

/// A save-area buffer: owned bytes, at least large enough for the legacy
/// region and the header.
pub struct XSaveArea {
    bytes: Vec<u8>,
}

impl XSaveArea {
    /// The buffer's bytes.
    pub closed spec fn spec_bytes(&self) -> Seq<u8> {
        self.bytes@
    }

    /// The buffer reaches at least to the extended region.
    pub open spec fn wf(&self) -> bool {
        self.spec_bytes().len() >= 576
    }

    /// Allocates a zero-filled save area of `size` bytes. Fails exactly when
    /// `size` cannot hold the legacy region and the header.
    ///
    /// The maximum size the processor reports covers every enabled
    /// component; a caller aiming at compacted saves may pass less, at its
    /// own risk, since the compacted size depends on the data.
    pub fn allocate(size: usize) -> (r: Result<XSaveArea, XSaveError>)
        ensures
            r is Ok <==> size >= 576,
            r matches Ok(a) ==> a.wf() && a.spec_bytes().len() == size && (forall|i: int|
                0 <= i < size ==> a.spec_bytes()[i] == 0),
    {
        if size < 576 {
            return Err(XSaveError::AllocationError);
        }
        let mut bytes: Vec<u8> = Vec::new();
        let mut k: usize = 0;
        while k < size
            invariant
                k <= size,
                bytes@.len() == k,
                forall|i: int| 0 <= i < k ==> bytes@[i] == 0,
            decreases size - k,
        {
            bytes.push(0);
            k = k + 1;
        }
        Ok(XSaveArea { bytes })
    }

    /// Adopts saved bytes as a save area. Fails exactly when they cannot
    /// hold the legacy region and the header.
    pub fn from_bytes(bytes: Vec<u8>) -> (r: Result<XSaveArea, XSaveError>)
        ensures
            r is Ok <==> bytes@.len() >= 576,
            r matches Ok(a) ==> a.wf() && a.spec_bytes() == bytes@,
    {
        if bytes.len() < 576 {
            return Err(XSaveError::BoundsViolation);
        }
        Ok(XSaveArea { bytes })
    }

    /// The buffer's length in bytes.
    pub fn len(&self) -> (r: usize)
        ensures
            r == self.spec_bytes().len(),
    {
        self.bytes.len()
    }

    /// The buffer's bytes, read-only.
    pub fn as_bytes(&self) -> (r: &Vec<u8>)
        ensures
            r@ == self.spec_bytes(),
    {
        &self.bytes
    }

    /// Gives the buffer's bytes up.
    pub fn into_bytes(self) -> (r: Vec<u8>)
        ensures
            r@ == self.spec_bytes(),
    {
        self.bytes
    }

    /// Reads the header out of the buffer.
    pub fn read_header(&self) -> (r: XSaveHeader)
        requires
            self.wf(),
        ensures
            r == spec_parse_header(self.spec_bytes()),
    {
        let xstate_bits = read_u64_le(self.bytes.as_slice(), 512);
        let xcomp_bits = read_u64_le(self.bytes.as_slice(), 520);
        XSaveHeader::new(
            crate::state_component_bitmaps::StateComponentBitmap::new(xstate_bits),
            crate::state_component_bitmaps::CompactionStateComponentBitmap::new(xcomp_bits),
        )
    }

    /// Writes a header into the buffer, leaving every byte outside the two
    /// bitmap fields as it was.
    pub fn write_header(&mut self, header: &XSaveHeader)
        requires
            old(self).wf(),
        ensures
            final(self).wf(),
            final(self).spec_bytes().len() == old(self).spec_bytes().len(),
            spec_parse_header(final(self).spec_bytes()) == *header,
            forall|i: int|
                0 <= i < old(self).spec_bytes().len() && !(512 <= i < 528)
                    ==> final(self).spec_bytes()[i] == old(self).spec_bytes()[i],
    {
        write_u64_le(&mut self.bytes, 512, header.xstate_bv.bits);
        write_u64_le(&mut self.bytes, 520, header.xcomp_bv.bitmap.bits);
    }

    /// Parses the legacy region of the buffer, reading the mode-dependent
    /// pointer fields in the shape of `mode`.
    pub fn legacy_region(&self, mode: FpuOperatingMode) -> (r: FXSaveArea)
        requires
            self.wf(),
        ensures
            spec_is_parsed_fxsave(r, self.spec_bytes(), mode),
    {
        FXSaveArea::from_bytes(self.bytes.as_slice(), mode)
    }

    /// Overwrites the bytes at `at` with `data`, leaving every other byte as
    /// it was.
    pub fn write_bytes(&mut self, at: usize, data: &[u8])
        requires
            old(self).wf(),
            at + data@.len() <= old(self).spec_bytes().len(),
        ensures
            final(self).wf(),
            final(self).spec_bytes().len() == old(self).spec_bytes().len(),
            forall|i: int|
                at <= i < at + data@.len() ==> final(self).spec_bytes()[i] == data@[i - at],
            forall|i: int|
                0 <= i < old(self).spec_bytes().len() && !(at <= i < at + data@.len())
                    ==> final(self).spec_bytes()[i] == old(self).spec_bytes()[i],
    {
        let n = data.len();
        let total = self.bytes.len();
        assert(at + n <= total);
        let mut k: usize = 0;
        while k < n
            invariant
                k <= n,
                n == data@.len(),
                at + n <= usize::MAX,
                at + n <= self.bytes@.len(),
                self.bytes@.len() == old(self).bytes@.len(),
                forall|i: int| at <= i < at + k ==> self.bytes@[i] == data@[i - at],
                forall|i: int|
                    0 <= i < old(self).bytes@.len() && !(at <= i < at + k) ==> self.bytes@[i]
                        == old(self).bytes@[i],
            decreases n - k,
        {
            self.bytes.set(at + k, data[k]);
            k = k + 1;
        }
    }
}

} // verus!
