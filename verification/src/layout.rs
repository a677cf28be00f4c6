//! The layout decoder: where each state component lives inside a save area.
//!
//! The legacy components sit at fixed places in the legacy region. Every
//! extended component lives in the extended region, which starts at byte
//! 576, and its place depends on the header:
//!
//! - uncompacted (compaction bit clear): each component sits at the fixed
//!   offset the capability query reports for it;
//! - compacted (compaction bit set): the components allocated by the
//!   compaction indicator are packed in ascending bit order from byte 576,
//!   each taking its reported size, rounded up to the next 64-byte boundary
//!   after a component that demands alignment.
//!
//! Decoding fails, rather than guessing, when the header and the sizing
//! table cannot both be right: a present component without a sizing entry, a
//! compacted area whose indicator allocates an unsized component or omits a
//! present one, an indicator with component bits but no compaction bit, or a
//! computed place that leaves the buffer.

use vstd::prelude::*;
use crate::area::XSaveArea;
use crate::bitops::{bit_is_set, lemma_round_up_64_bounds, spec_round_up_64};
use crate::bitops::round_up_64;
use crate::errors::XSaveError;
use crate::fxsave::{
    spec_is_parsed_sse_part1,
    spec_is_parsed_sse_part2,
    spec_is_parsed_x87_part1,
    spec_is_parsed_x87_part2,
    SseStatePart1,
    SseStatePart2,
    X87StatePart1,
    X87StatePart2,
};
use crate::fxsave_domain::FpuOperatingMode;
use crate::sizing_table::SizingTable;
use crate::state_components::StateComponent;
use crate::xsave_header::{spec_parse_header, XSaveHeader};

verus! {

/// The size recorded for bit `i`, zero when the table has no entry.
pub open spec fn spec_entry_size(t: SizingTable, i: int) -> int {
    match t.spec_entry(i) {
        Some(s) => s.size as int,
        None => 0,
    }
}

/// The alignment demand recorded for bit `i`, false when the table has no
/// entry.
pub open spec fn spec_entry_alignment(t: SizingTable, i: int) -> bool {
    match t.spec_entry(i) {
        Some(s) => s.requires_alignment_if_compacted,
        None => false,
    }
}

/// The uncompacted offset recorded for bit `i`, zero when the table has no
/// entry.
pub open spec fn spec_entry_uncompacted_offset(t: SizingTable, i: int) -> int {
    match t.spec_entry(i) {
        Some(s) => s.uncompacted_byte_offset as int,
        None => 0,
    }
}

/// A compaction indicator is well formed when it is either compacted or
/// wholly zero: component bits under a clear compaction bit mean the caller
/// filled the wrong header field.
pub open spec fn spec_indicator_well_formed(
    xcomp: crate::state_component_bitmaps::CompactionStateComponentBitmap,
) -> bool {
    xcomp.spec_is_compacted() || xcomp.bitmap.bits == 0
}

/// The running offset of the compacted walk when it reaches bit `i`: byte
/// 576 at the first extended bit, and after each allocated earlier bit its
/// size, rounded up to a 64-byte boundary where that bit demands it. This is
/// the offset at which the component of bit `i` sits if the indicator
/// allocates it.
pub open spec fn spec_cursor(xcomp: u64, t: SizingTable, i: int) -> int
    decreases i,
{
    if i <= 2 {
        576
    } else {
        let prev = spec_cursor(xcomp, t, i - 1);
        if bit_is_set(xcomp, (i - 1) as u64) {
            if spec_entry_alignment(t, i - 1) {
                spec_round_up_64(prev + spec_entry_size(t, i - 1))
            } else {
                prev + spec_entry_size(t, i - 1)
            }
        } else {
            prev
        }
    }
}

/// Some bit in `2..=62` is set in `bits` but has no sizing entry.
pub open spec fn spec_missing_entry(bits: u64, t: SizingTable) -> bool {
    exists|i: u64| 2 <= i <= 62 && bit_is_set(bits, i) && t.spec_entry(i as int) is None
}

/// Some present component in `2..=62` is missing from the compaction
/// indicator.
pub open spec fn spec_present_not_allocated(header: XSaveHeader) -> bool {
    exists|i: u64|
        2 <= i <= 62 && bit_is_set(header.xstate_bv.bits, i) && !bit_is_set(
            header.xcomp_bv.bitmap.bits,
            i,
        )
}

/// The header and the sizing table contradict each other: decoding on would
/// yield wrong offsets.
pub open spec fn spec_consistency_fault(header: XSaveHeader, t: SizingTable) -> bool {
    ||| !spec_indicator_well_formed(header.xcomp_bv)
    ||| spec_missing_entry(header.xstate_bv.bits, t)
    ||| (header.xcomp_bv.spec_is_compacted() && spec_missing_entry(header.xcomp_bv.bitmap.bits, t))
    ||| (header.xcomp_bv.spec_is_compacted() && spec_present_not_allocated(header))
}

/// The offset of the extended component of bit `i`: its tabulated fixed
/// offset in the uncompacted format, the compacted walk's cursor otherwise.
pub open spec fn spec_component_offset(header: XSaveHeader, t: SizingTable, i: int) -> int
    recommends
        2 <= i <= 62,
        t.spec_entry(i) is Some,
{
    if header.xcomp_bv.spec_is_compacted() {
        spec_cursor(header.xcomp_bv.bitmap.bits, t, i)
    } else {
        spec_entry_uncompacted_offset(t, i)
    }
}

/// Some present component's computed place leaves a buffer of `area_len`
/// bytes.
pub open spec fn spec_bounds_fault(header: XSaveHeader, t: SizingTable, area_len: int) -> bool {
    exists|i: u64|
        2 <= i <= 62 && bit_is_set(header.xstate_bv.bits, i) && spec_component_offset(
            header,
            t,
            i as int,
        ) + spec_entry_size(t, i as int) > area_len
}

/// The place of one component inside a save area.
#[derive(Debug, Clone, Copy, PartialEq, Eq, Structural)]
pub struct ComponentLocation {
    /// Byte offset from the base of the area.
    pub byte_offset: usize,
    /// Size in bytes.
    pub byte_size: usize,
}

/// The place the decoder assigns to the extended component of bit `i`:
/// an offset and size when the header marks it present, nothing otherwise.
pub open spec fn spec_location_for(header: XSaveHeader, t: SizingTable, i: int) -> Option<
    ComponentLocation,
>
    recommends
        2 <= i <= 62,
{
    if bit_is_set(header.xstate_bv.bits, i as u64) {
        Some(
            ComponentLocation {
                byte_offset: spec_component_offset(header, t, i) as usize,
                byte_size: spec_entry_size(t, i) as usize,
            },
        )
    } else {
        None
    }
}

/// The decoded layout of one save area: the header it was decoded from, the
/// place of every present extended component, and the length of the buffer
/// the places were checked against.
pub struct XSaveAreaLayout {
    header: XSaveHeader,
    locations: Vec<Option<ComponentLocation>>,
    area_len: usize,
}

/// `l` is what decoding `header` against `t` for a buffer of `area_len`
/// bytes yields: every present extended component at its computed place,
/// every other bit without one.
pub open spec fn spec_decoded(
    l: XSaveAreaLayout,
    header: XSaveHeader,
    t: SizingTable,
    area_len: int,
) -> bool {
    &&& l.spec_header() == header
    &&& l.spec_area_len() == area_len
    &&& forall|i: int| 2 <= i <= 62 ==> #[trigger] l.spec_location(i) == spec_location_for(header, t, i)
}

impl XSaveAreaLayout {
    /// The header this layout was decoded from.
    pub closed spec fn spec_header(&self) -> XSaveHeader {
        self.header
    }

    /// The buffer length the layout's places were checked against.
    pub closed spec fn spec_area_len(&self) -> int {
        self.area_len as int
    }

    /// The place of the extended component of bit `i`.
    pub closed spec fn spec_location(&self, i: int) -> Option<ComponentLocation> {
        if 0 <= i < 64 {
            self.locations@[i]
        } else {
            None
        }
    }

    /// What every decoded layout guarantees: a place exactly for each
    /// present extended component, and every place inside the buffer.
    pub closed spec fn wf(&self) -> bool {
        &&& self.locations@.len() == 64
        &&& self.locations@[0] is None
        &&& self.locations@[1] is None
        &&& self.locations@[63] is None
        &&& forall|i: int|
            2 <= i <= 62 ==> ((#[trigger] self.locations@[i]) is Some <==> bit_is_set(
                self.header.xstate_bv.bits,
                i as u64,
            ))
        &&& forall|i: int|
            0 <= i < 64 ==> match #[trigger] self.locations@[i] {
                Some(loc) => loc.byte_offset + loc.byte_size <= self.area_len,
                None => true,
            }
    }

    /// Decodes the layout of a save area of `area_len` bytes from its header
    /// and the processor's sizing table.
    ///
    /// Fails with a consistency fault exactly when header and table
    /// contradict each other, and with a bounds violation exactly when they
    /// agree but place a present component past the end of the buffer.
    pub fn decode(header: XSaveHeader, table: &SizingTable, area_len: usize) -> (r: Result<
        XSaveAreaLayout,
        XSaveError,
    >)
        requires
            table.wf(),
        ensures
            (r == Err::<XSaveAreaLayout, XSaveError>(XSaveError::ConsistencyFault))
                <==> spec_consistency_fault(header, *table),
            (r == Err::<XSaveAreaLayout, XSaveError>(XSaveError::BoundsViolation)) <==> (
            !spec_consistency_fault(header, *table) && spec_bounds_fault(
                header,
                *table,
                area_len as int,
            )),
            r matches Err(e) ==> (e == XSaveError::ConsistencyFault || e
                == XSaveError::BoundsViolation),
            r matches Ok(l) ==> l.wf() && spec_decoded(l, header, *table, area_len as int),
    {
        let compacted = header.xcomp_bv.is_extended_region_compacted();
        if !compacted && header.xcomp_bv.bitmap.bits != 0 {
            return Err(XSaveError::ConsistencyFault);
        }
        let xstate = header.xstate_bv;
        let xcomp = header.xcomp_bv;

        let mut bit: u8 = 2;
        while bit <= 62
            invariant
                table.wf(),
                2 <= bit <= 63,
                compacted == xcomp.spec_is_compacted(),
                xstate == header.xstate_bv,
                xcomp == header.xcomp_bv,
                spec_indicator_well_formed(header.xcomp_bv),
                forall|i: u64|
                    2 <= i < bit ==> !(bit_is_set(xstate.bits, i) && table.spec_entry(
                        i as int,
                    ) is None),
                compacted ==> forall|i: u64|
                    2 <= i < bit ==> !(bit_is_set(xcomp.bitmap.bits, i) && table.spec_entry(
                        i as int,
                    ) is None),
                compacted ==> forall|i: u64|
                    2 <= i < bit ==> !(bit_is_set(xstate.bits, i) && !bit_is_set(
                        xcomp.bitmap.bits,
                        i,
                    )),
            decreases 63 - bit,
        {
            let present = xstate.bit_set(bit);
            let allocated = xcomp.bit_set(bit);
            let has_entry = table.get(bit).is_some();
            if present && !has_entry {
                assert(spec_missing_entry(xstate.bits, *table));
                return Err(XSaveError::ConsistencyFault);
            }
            if compacted && allocated && !has_entry {
                assert(spec_missing_entry(xcomp.bitmap.bits, *table));
                return Err(XSaveError::ConsistencyFault);
            }
            if compacted && present && !allocated {
                assert(spec_present_not_allocated(header));
                return Err(XSaveError::ConsistencyFault);
            }
            bit = bit + 1;
        }
        assert(!spec_consistency_fault(header, *table));

        let mut locations: Vec<Option<ComponentLocation>> = Vec::new();
        locations.push(None);
        locations.push(None);
        let mut cursor: u64 = 576;
        let mut overflowed: bool = false;
        let mut bit: u8 = 2;
        while bit <= 62
            invariant
                table.wf(),
                2 <= bit <= 63,
                compacted == xcomp.spec_is_compacted(),
                xstate == header.xstate_bv,
                xcomp == header.xcomp_bv,
                !spec_consistency_fault(header, *table),
                locations@.len() == bit as int,
                locations@[0] is None,
                locations@[1] is None,
                forall|i: int|
                    2 <= i < bit ==> #[trigger] locations@[i] == spec_location_for(
                        header,
                        *table,
                        i,
                    ),
                forall|i: int|
                    2 <= i < bit ==> match #[trigger] locations@[i] {
                        Some(loc) => loc.byte_offset + loc.byte_size <= area_len,
                        None => true,
                    },
                forall|i: u64|
                    2 <= i < bit ==> !(bit_is_set(xstate.bits, i) && spec_component_offset(
                        header,
                        *table,
                        i as int,
                    ) + spec_entry_size(*table, i as int) > area_len),
                compacted && !overflowed ==> cursor == spec_cursor(
                    xcomp.bitmap.bits,
                    *table,
                    bit as int,
                ),
                compacted && overflowed ==> spec_cursor(xcomp.bitmap.bits, *table, bit as int)
                    > u64::MAX,
            decreases 63 - bit,
        {
            let present = xstate.bit_set(bit);
            let entry = table.get(bit);
            if present {
                assert(entry is Some) by {
                    if entry is None {
                        assert(spec_missing_entry(xstate.bits, *table));
                    }
                }
                let s = entry.unwrap();
                let offset_u64: u64 = if compacted {
                    assert(bit_is_set(xcomp.bitmap.bits, bit as u64)) by {
                        if !bit_is_set(xcomp.bitmap.bits, bit as u64) {
                            assert(spec_present_not_allocated(header));
                        }
                    }
                    if overflowed {
                        assert(spec_bounds_fault(header, *table, area_len as int));
                        return Err(XSaveError::BoundsViolation);
                    }
                    cursor
                } else {
                    s.uncompacted_byte_offset as u64
                };
                assert(offset_u64 == spec_component_offset(header, *table, bit as int));
                match offset_u64.checked_add(s.size as u64) {
                    None => {
                        assert(spec_bounds_fault(header, *table, area_len as int));
                        return Err(XSaveError::BoundsViolation);
                    },
                    Some(end) => {
                        if end > area_len as u64 {
                            assert(spec_bounds_fault(header, *table, area_len as int));
                            return Err(XSaveError::BoundsViolation);
                        }
                        locations.push(
                            Some(
                                ComponentLocation {
                                    byte_offset: offset_u64 as usize,
                                    byte_size: s.size,
                                },
                            ),
                        );
                    },
                }
            } else {
                locations.push(None);
            }
            if compacted {
                if xcomp.bit_set(bit) {
                    assert(table.spec_entry(bit as int) is Some) by {
                        if table.spec_entry(bit as int) is None {
                            assert(spec_missing_entry(xcomp.bitmap.bits, *table));
                        }
                    }
                    let s2 = table.get(bit).unwrap();
                    if overflowed {
                        proof {
                            lemma_cursor_step_lower(xcomp.bitmap.bits, *table, bit as int);
                        }
                    } else {
                        match cursor.checked_add(s2.size as u64) {
                            None => {
                                overflowed = true;
                            },
                            Some(next_cursor) => {
                                if s2.requires_alignment_if_compacted {
                                    if next_cursor > u64::MAX - 63 {
                                        proof {
                                            lemma_round_up_64_bounds(next_cursor as int);
                                        }
                                        overflowed = true;
                                    } else {
                                        cursor = round_up_64(next_cursor);
                                    }
                                } else {
                                    cursor = next_cursor;
                                }
                            },
                        }
                    }
                }
            }
            bit = bit + 1;
        }
        locations.push(None);
        assert(!spec_bounds_fault(header, *table, area_len as int));
        let layout = XSaveAreaLayout { header, locations, area_len };
        Ok(layout)
    }
}

impl XSaveAreaLayout {
    /// The header the layout was decoded from.
    pub fn header(&self) -> (r: XSaveHeader)
        ensures
            r == self.spec_header(),
    {
        self.header
    }

    /// The buffer length the layout's places were checked against.
    pub fn area_len(&self) -> (r: usize)
        ensures
            r == self.spec_area_len(),
    {
        self.area_len
    }

    /// The area holds the given component's state.
    pub fn is_present(&self, state_component: StateComponent) -> (r: bool)
        ensures
            r == bit_is_set(self.spec_header().xstate_bv.bits, state_component.spec_bit()),
    {
        self.header.is_present(state_component)
    }

    /// The area does not hold the given component's state.
    pub fn is_missing(&self, state_component: StateComponent) -> (r: bool)
        ensures
            r == !bit_is_set(self.spec_header().xstate_bv.bits, state_component.spec_bit()),
    {
        !self.is_present(state_component)
    }

    /// The extended region uses the uncompacted, fixed-offset format.
    pub fn is_extended_region_uncompacted(&self) -> (r: bool)
        ensures
            r == !self.spec_header().xcomp_bv.spec_is_compacted(),
    {
        !self.header.is_extended_region_compacted()
    }

    /// The place of an extended component: its offset and size when present,
    /// nothing when the header does not mark it present, whatever the sizing
    /// table says. The legacy components have no place here: their bits are
    /// outside this decoder's contract.
    pub fn extended_state_location(&self, state_component: StateComponent) -> (r: Option<
        ComponentLocation,
    >)
        requires
            self.wf(),
            state_component.spec_bit() >= 2,
        ensures
            r == self.spec_location(state_component.spec_bit() as int),
            r is Some <==> bit_is_set(
                self.spec_header().xstate_bv.bits,
                state_component.spec_bit(),
            ),
            r matches Some(loc) ==> loc.byte_offset + loc.byte_size <= self.spec_area_len(),
    {
        let bit = state_component.bit();
        self.locations[bit as usize]
    }

    /// The bytes of an extended component inside `area`: a slice bounded
    /// exactly to the component's place when the header marks it present,
    /// nothing otherwise.
    pub fn extended_state<'a>(&self, area: &'a XSaveArea, state_component: StateComponent) -> (r:
        Option<&'a [u8]>)
        requires
            self.wf(),
            area.wf(),
            area.spec_bytes().len() == self.spec_area_len(),
            state_component.spec_bit() >= 2,
        ensures
            r is Some <==> self.spec_location(state_component.spec_bit() as int) is Some,
            r matches Some(b) ==> (self.spec_location(state_component.spec_bit() as int) matches
                Some(loc) && b@ == area.spec_bytes().subrange(
                loc.byte_offset as int,
                loc.byte_offset + loc.byte_size,
            )),
    {
        let bit = state_component.bit();
        match self.locations[bit as usize] {
            None => None,
            Some(loc) => {
                let bytes = area.as_bytes().as_slice();
                Some(vstd::slice::slice_subrange(bytes, loc.byte_offset, loc.byte_offset
                    + loc.byte_size))
            },
        }
    }

    /// The two parts of the x87 state parsed out of `area`, if the header
    /// marks the x87 component present.
    pub fn x87_state(&self, area: &XSaveArea, mode: FpuOperatingMode) -> (r: Option<
        (X87StatePart1, X87StatePart2),
    >)
        requires
            area.wf(),
        ensures
            r is Some <==> bit_is_set(self.spec_header().xstate_bv.bits, 0),
            r matches Some(parts) ==> spec_is_parsed_x87_part1(parts.0, area.spec_bytes(), mode)
                && spec_is_parsed_x87_part2(parts.1, area.spec_bytes()),
    {
        if self.is_missing(StateComponent::x87()) {
            None
        } else {
            let legacy = area.legacy_region(mode);
            Some((legacy.x87_state_part_1, legacy.x87_state_part_2))
        }
    }

    /// The two parts of the SSE state parsed out of `area`, if the header
    /// marks the SSE component present. Neither part depends on the
    /// addressing mode.
    pub fn sse_state(&self, area: &XSaveArea) -> (r: Option<(SseStatePart1, SseStatePart2)>)
        requires
            area.wf(),
        ensures
            r is Some <==> bit_is_set(self.spec_header().xstate_bv.bits, 1),
            r matches Some(parts) ==> spec_is_parsed_sse_part1(parts.0, area.spec_bytes())
                && spec_is_parsed_sse_part2(parts.1, area.spec_bytes()),
    {
        if self.is_missing(StateComponent::sse()) {
            None
        } else {
            let legacy = area.legacy_region(FpuOperatingMode::Mode64BitWithRexW);
            Some((legacy.sse_state_part_1, legacy.sse_state_part_2))
        }
    }

    /// The place of the advanced-vector-extension state (bit 2).
    pub fn avx_state(&self) -> (r: Option<ComponentLocation>)
        requires
            self.wf(),
        ensures
            r == self.spec_location(2),
    {
        self.extended_state_location(StateComponent::avx())
    }

    /// The place of the bounds-register state of the memory-protection
    /// extensions (bit 3).
    pub fn mpx_bdnregs_state(&self) -> (r: Option<ComponentLocation>)
        requires
            self.wf(),
        ensures
            r == self.spec_location(3),
    {
        self.extended_state_location(StateComponent::bndregs_mpx())
    }

    /// The place of the configuration-and-status state of the
    /// memory-protection extensions (bit 4).
    pub fn mpx_bndcsr_state(&self) -> (r: Option<ComponentLocation>)
        requires
            self.wf(),
        ensures
            r == self.spec_location(4),
    {
        self.extended_state_location(StateComponent::bndcsr_mpx())
    }

    /// The place of the opmask state of the 512-bit vector extensions
    /// (bit 5).
    pub fn avx_512_opmask_state(&self) -> (r: Option<ComponentLocation>)
        requires
            self.wf(),
        ensures
            r == self.spec_location(5),
    {
        self.extended_state_location(StateComponent::opmask_avx_512())
    }

    /// The place of the upper-halves state of the first sixteen 512-bit
    /// vector registers (bit 6).
    pub fn avx_512_zmm_hi256_state(&self) -> (r: Option<ComponentLocation>)
        requires
            self.wf(),
        ensures
            r == self.spec_location(6),
    {
        self.extended_state_location(StateComponent::zmm_hi256_avx_512())
    }

    /// The place of the upper-sixteen-registers state of the 512-bit vector
    /// extensions (bit 7).
    pub fn avx_512_hi16_zmm_state(&self) -> (r: Option<ComponentLocation>)
        requires
            self.wf(),
        ensures
            r == self.spec_location(7),
    {
        self.extended_state_location(StateComponent::hi16_zmm_avx_512())
    }

    /// The place of the protection-key state (bit 9).
    pub fn pkru_state(&self) -> (r: Option<ComponentLocation>)
        requires
            self.wf(),
        ensures
            r == self.spec_location(9),
    {
        self.extended_state_location(StateComponent::pkru())
    }

    /// The place of the processor-trace supervisor state (bit 8).
    pub fn pt_state(&self) -> (r: Option<ComponentLocation>)
        requires
            self.wf(),
        ensures
            r == self.spec_location(8),
    {
        self.extended_state_location(StateComponent::pt())
    }

    /// The place of the hardware duty-cycling supervisor state (bit 13).
    pub fn hdc_state(&self) -> (r: Option<ComponentLocation>)
        requires
            self.wf(),
        ensures
            r == self.spec_location(13),
    {
        self.extended_state_location(StateComponent::hdc())
    }
}

impl XSaveArea {
    /// Decodes this area's layout from its own header, against the
    /// processor's sizing table.
    pub fn layout(&self, table: &SizingTable) -> (r: Result<XSaveAreaLayout, XSaveError>)
        requires
            self.wf(),
            table.wf(),
        ensures
            (r == Err::<XSaveAreaLayout, XSaveError>(XSaveError::ConsistencyFault))
                <==> spec_consistency_fault(spec_parse_header(self.spec_bytes()), *table),
            (r == Err::<XSaveAreaLayout, XSaveError>(XSaveError::BoundsViolation)) <==> (
            !spec_consistency_fault(spec_parse_header(self.spec_bytes()), *table)
                && spec_bounds_fault(
                spec_parse_header(self.spec_bytes()),
                *table,
                self.spec_bytes().len() as int,
            )),
            r matches Err(e) ==> (e == XSaveError::ConsistencyFault || e
                == XSaveError::BoundsViolation),
            r matches Ok(l) ==> l.wf() && spec_decoded(
                l,
                spec_parse_header(self.spec_bytes()),
                *table,
                self.spec_bytes().len() as int,
            ),
    {
        let header = self.read_header();
        XSaveAreaLayout::decode(header, table, self.len())
    }
}

/// One step of the compacted walk never moves the cursor back.
pub proof fn lemma_cursor_step_lower(xcomp: u64, t: SizingTable, i: int)
    requires
        2 <= i,
    ensures
        spec_cursor(xcomp, t, i + 1) >= spec_cursor(xcomp, t, i),
{
    let prev = spec_cursor(xcomp, t, i);
    lemma_cursor_lower_bound(xcomp, t, i);
    if bit_is_set(xcomp, i as u64) {
        if spec_entry_alignment(t, i) {
            lemma_round_up_64_bounds(prev + spec_entry_size(t, i));
        }
    }
}

/// The compacted walk's cursor never drops under the extended region's
/// base offset.
pub proof fn lemma_cursor_lower_bound(xcomp: u64, t: SizingTable, i: int)
    ensures
        spec_cursor(xcomp, t, i) >= 576,
    decreases i,
{
    if i > 2 {
        lemma_cursor_lower_bound(xcomp, t, i - 1);
        let prev = spec_cursor(xcomp, t, i - 1);
        if bit_is_set(xcomp, (i - 1) as u64) && spec_entry_alignment(t, i - 1) {
            lemma_round_up_64_bounds(prev + spec_entry_size(t, i - 1));
        }
    }
}

/// The compacted walk's cursor never moves back between two bits.
pub proof fn lemma_cursor_monotone(xcomp: u64, t: SizingTable, i: int, j: int)
    requires
        2 <= i <= j,
    ensures
        spec_cursor(xcomp, t, i) <= spec_cursor(xcomp, t, j),
    decreases j - i,
{
    if i < j {
        lemma_cursor_monotone(xcomp, t, i, j - 1);
        lemma_cursor_step_lower(xcomp, t, j - 1);
    }
}

/// Bits that the indicator leaves out keep the cursor still.
pub proof fn lemma_cursor_constant(xcomp: u64, t: SizingTable, i: int, j: int)
    requires
        2 <= i <= j,
        forall|k: int| i <= k < j ==> !(#[trigger] bit_is_set(xcomp, k as u64)),
    ensures
        spec_cursor(xcomp, t, j) == spec_cursor(xcomp, t, i),
    decreases j - i,
{
    if i < j {
        lemma_cursor_constant(xcomp, t, i, j - 1);
    }
}

/// Law: in an uncompacted layout, an extended component's offset is exactly
/// the offset its sizing entry tabulates; nothing is computed.
pub proof fn lemma_uncompacted_offset_is_tabulated(header: XSaveHeader, t: SizingTable, i: int)
    requires
        !header.xcomp_bv.spec_is_compacted(),
        2 <= i <= 62,
    ensures
        spec_component_offset(header, t, i) == spec_entry_uncompacted_offset(t, i),
{
}

/// Law: decoding is a function of the header, the sizing table and the
/// buffer length. Two layouts decoded from the same three agree on the
/// place of every component, so decoding twice changes nothing.
pub proof fn lemma_decode_deterministic(
    l1: XSaveAreaLayout,
    l2: XSaveAreaLayout,
    header: XSaveHeader,
    t: SizingTable,
    area_len: int,
)
    requires
        spec_decoded(l1, header, t, area_len),
        spec_decoded(l2, header, t, area_len),
    ensures
        forall|i: int| 2 <= i <= 62 ==> l1.spec_location(i) == l2.spec_location(i),
        l1.spec_header() == l2.spec_header(),
{
    assert forall|i: int| 2 <= i <= 62 implies l1.spec_location(i) == l2.spec_location(i) by {
        assert(l1.spec_location(i) == spec_location_for(header, t, i));
        assert(l2.spec_location(i) == spec_location_for(header, t, i));
    }
}

/// Law: along the bits the compaction indicator allocates, offsets increase
/// strictly in bit order as long as the allocated components have nonzero
/// sizes, and every offset lies at or past the extended region's base.
pub proof fn lemma_compacted_offsets_increase(xcomp: u64, t: SizingTable, i: int, j: int)
    requires
        2 <= i < j <= 62,
        bit_is_set(xcomp, i as u64),
        spec_entry_size(t, i) >= 1,
    ensures
        spec_cursor(xcomp, t, j) >= spec_cursor(xcomp, t, i) + spec_entry_size(t, i),
        spec_cursor(xcomp, t, j) > spec_cursor(xcomp, t, i),
        spec_cursor(xcomp, t, i) >= 576,
{
    lemma_cursor_lower_bound(xcomp, t, i);
    if spec_entry_alignment(t, i) {
        lemma_round_up_64_bounds(spec_cursor(xcomp, t, i) + spec_entry_size(t, i));
    }
    lemma_cursor_monotone(xcomp, t, i + 1, j);
}

/// Law: in a compacted layout that decodes without fault, the offsets of the
/// present components increase strictly in bit order as long as the lower
/// component's size is nonzero, and every offset lies at or past the
/// extended region's base, byte 576.
pub proof fn lemma_present_compacted_offsets_increase(
    header: XSaveHeader,
    t: SizingTable,
    i: int,
    j: int,
)
    requires
        header.xcomp_bv.spec_is_compacted(),
        !spec_consistency_fault(header, t),
        2 <= i < j <= 62,
        bit_is_set(header.xstate_bv.bits, i as u64),
        bit_is_set(header.xstate_bv.bits, j as u64),
        spec_entry_size(t, i) >= 1,
    ensures
        spec_component_offset(header, t, j) > spec_component_offset(header, t, i),
        spec_component_offset(header, t, i) >= 576,
        spec_component_offset(header, t, j) >= 576,
{
    let xcomp = header.xcomp_bv.bitmap.bits;
    assert(bit_is_set(xcomp, i as u64)) by {
        if !bit_is_set(xcomp, i as u64) {
            assert(spec_present_not_allocated(header));
        }
    }
    lemma_compacted_offsets_increase(xcomp, t, i, j);
    lemma_cursor_lower_bound(xcomp, t, j);
}

/// Law: after a component that demands alignment, the next allocated bit's
/// offset is a multiple of 64.
pub proof fn lemma_alignment_invariant(xcomp: u64, t: SizingTable, c: int, n: int)
    requires
        2 <= c < n <= 62,
        bit_is_set(xcomp, c as u64),
        spec_entry_alignment(t, c),
        forall|k: int| c < k < n ==> !(#[trigger] bit_is_set(xcomp, k as u64)),
    ensures
        spec_cursor(xcomp, t, n) % 64 == 0,
{
    lemma_cursor_lower_bound(xcomp, t, c);
    lemma_round_up_64_bounds(spec_cursor(xcomp, t, c) + spec_entry_size(t, c));
    lemma_cursor_constant(xcomp, t, c + 1, n);
}

/// Law: the first bit the compaction indicator allocates sits exactly at
/// the extended region's base, byte 576: with nothing allocated below it,
/// the walk never leaves its starting offset.
pub proof fn lemma_first_allocated_component_offset(xcomp: u64, t: SizingTable, i: int)
    requires
        2 <= i <= 62,
        forall|k: int| 2 <= k < i ==> !(#[trigger] bit_is_set(xcomp, k as u64)),
    ensures
        spec_cursor(xcomp, t, i) == 576,
{
    lemma_cursor_constant(xcomp, t, 2, i);
}

/// Law: the decoded places depend on the buffer only through its header
/// bytes: two buffers whose header fields agree parse to the same header,
/// so writing anywhere else, the extended region included, leaves the
/// layout as it was.
pub proof fn lemma_layout_depends_on_header_only(s1: Seq<u8>, s2: Seq<u8>)
    requires
        s1.len() >= 576,
        s2.len() >= 576,
        forall|i: int| 512 <= i < 528 ==> s1[i] == s2[i],
    ensures
        spec_parse_header(s1) == spec_parse_header(s2),
{
    assert forall|i: int| 512 <= i < 528 implies s1[i] == s2[i] by {
    }
    assert(crate::byte_codec::spec_u64_le(s1, 512) == crate::byte_codec::spec_u64_le(s2, 512));
    assert(crate::byte_codec::spec_u64_le(s1, 520) == crate::byte_codec::spec_u64_le(s2, 520));
}

} // verus!
