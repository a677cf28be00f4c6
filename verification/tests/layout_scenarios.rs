use x86_64_xsave::area::XSaveArea;
use x86_64_xsave::errors::XSaveError;
use x86_64_xsave::layout::XSaveAreaLayout;
use x86_64_xsave::sizing_table::SizingTable;
use x86_64_xsave::state_component_bitmaps::{CompactionStateComponentBitmap, StateComponentBitmap};
use x86_64_xsave::state_components::{StateComponent, StateComponentSizing, SupportedIn};
use x86_64_xsave::xsave_header::XSaveHeader;

fn sizing(offset: usize, size: usize, align: bool) -> StateComponentSizing {
    StateComponentSizing {
        uncompacted_byte_offset: offset,
        size,
        supported_in: SupportedIn::Xcr0,
        requires_alignment_if_compacted: align,
    }
}

fn area_with_header(len: usize, xstate: u64, xcomp: u64) -> XSaveArea {
    let mut area = XSaveArea::allocate(len).unwrap();
    let header = XSaveHeader::new(
        StateComponentBitmap::new(xstate),
        CompactionStateComponentBitmap::new(xcomp),
    );
    area.write_header(&header);
    area
}

#[test]
fn uncompacted_two_components_scenario() {
    // Present: x87, SSE, AVX; compaction indicator all zero.
    let area = area_with_header(1024, 0b111, 0);
    let mut table = SizingTable::new();
    table.set(2, sizing(576, 256, false));
    let layout = area.layout(&table).unwrap();

    assert!(!layout.header().is_extended_region_compacted());
    assert!(layout.is_extended_region_uncompacted());
    let avx = layout.avx_state().unwrap();
    assert_eq!(avx.byte_offset, 576);
    assert_eq!(avx.byte_size, 256);
    assert!(layout.is_present(StateComponent::x87()));
    assert!(layout.is_present(StateComponent::sse()));
    assert!(layout.x87_state(&area, x86_64_xsave::fxsave_domain::FpuOperatingMode::Mode64BitWithRexW).is_some());
    assert!(layout.sse_state(&area).is_some());
}

#[test]
fn uncompacted_legacy_parts_sit_at_their_fixed_offsets() {
    // The x87 control word is read from byte 0 and the SSE control register
    // from byte 24 of the area.
    let mut area = area_with_header(1024, 0b011, 0);
    area.write_bytes(0, &[0x34, 0x12]);
    area.write_bytes(24, &[0x80, 0x1f, 0x03, 0x00]);
    let table = SizingTable::new();
    let layout = area.layout(&table).unwrap();

    let mode = x86_64_xsave::fxsave_domain::FpuOperatingMode::Mode64BitWithRexW;
    let (x87_part1, _x87_part2) = layout.x87_state(&area, mode).unwrap();
    assert_eq!(x87_part1.fpu_control_word.value, 0x1234);
    let (sse_part1, _sse_part2) = layout.sse_state(&area).unwrap();
    assert_eq!(sse_part1.mxcsr_register_value.value, 0x00031f80);
}

#[test]
fn compacted_alignment_scenario() {
    // Compaction indicator: AVX (bit 2) and PKRU (bit 9); AVX is 256 bytes
    // without alignment, PKRU 8 bytes with alignment. AVX sits at 576 and
    // PKRU at the accumulated offset 832.
    let xcomp = (1u64 << 63) | (1 << 2) | (1 << 9);
    let xstate = (1u64 << 2) | (1 << 9);
    let area = area_with_header(4096, xstate, xcomp);
    let mut table = SizingTable::new();
    table.set(2, sizing(576, 256, false));
    table.set(9, sizing(2688, 8, true));
    let layout = area.layout(&table).unwrap();

    assert!(!layout.is_extended_region_uncompacted());
    let avx = layout.avx_state().unwrap();
    assert_eq!(avx.byte_offset, 576);
    assert_eq!(avx.byte_size, 256);
    let pkru = layout.pkru_state().unwrap();
    assert_eq!(pkru.byte_offset, 832);
    assert_eq!(pkru.byte_size, 8);
}

#[test]
fn compacted_alignment_rounds_the_next_offset_up() {
    // Bit 2 takes 100 bytes and demands alignment, so bit 5 starts at the
    // next 64-byte boundary after 676, which is 704.
    let xcomp = (1u64 << 63) | (1 << 2) | (1 << 5);
    let xstate = (1u64 << 2) | (1 << 5);
    let area = area_with_header(4096, xstate, xcomp);
    let mut table = SizingTable::new();
    table.set(2, sizing(576, 100, true));
    table.set(5, sizing(1088, 40, false));
    let layout = area.layout(&table).unwrap();

    let opmask = layout.avx_512_opmask_state().unwrap();
    assert_eq!(opmask.byte_offset, 704);
    assert_eq!(opmask.byte_offset % 64, 0);
}

#[test]
fn compacted_offsets_increase_in_bit_order() {
    let xcomp = (1u64 << 63) | (1 << 2) | (1 << 3) | (1 << 9);
    let xstate = (1u64 << 2) | (1 << 3) | (1 << 9);
    let area = area_with_header(4096, xstate, xcomp);
    let mut table = SizingTable::new();
    table.set(2, sizing(576, 64, false));
    table.set(3, sizing(640, 32, false));
    table.set(9, sizing(2688, 8, false));
    let layout = area.layout(&table).unwrap();

    let avx = layout.avx_state().unwrap();
    let bndregs = layout.mpx_bdnregs_state().unwrap();
    let pkru = layout.pkru_state().unwrap();
    assert_eq!(avx.byte_offset, 576);
    assert_eq!(bndregs.byte_offset, 640);
    assert_eq!(pkru.byte_offset, 672);
    assert!(avx.byte_offset >= 576);
    assert!(bndregs.byte_offset > avx.byte_offset);
    assert!(pkru.byte_offset > bndregs.byte_offset);
}

#[test]
fn first_allocated_component_sits_at_the_extended_base() {
    // The lowest allocated bit is 9; with nothing under it, its offset is
    // exactly 576.
    let xcomp = (1u64 << 63) | (1 << 9);
    let xstate = 1u64 << 9;
    let area = area_with_header(1024, xstate, xcomp);
    let mut table = SizingTable::new();
    table.set(9, sizing(2688, 8, true));
    let layout = area.layout(&table).unwrap();

    let pkru = layout.pkru_state().unwrap();
    assert_eq!(pkru.byte_offset, 576);
}

#[test]
fn consistency_fault_scenario_present_bit_without_sizing() {
    // Present bitmap includes bit 10 but the table has no entry for it.
    let area = area_with_header(1024, 1u64 << 10, 0);
    let table = SizingTable::new();
    assert_eq!(area.layout(&table).err(), Some(XSaveError::ConsistencyFault));
}

#[test]
fn consistency_fault_when_indicator_has_bits_but_no_compaction_bit() {
    let area = area_with_header(1024, 0, 1u64 << 2);
    let table = SizingTable::new();
    assert_eq!(area.layout(&table).err(), Some(XSaveError::ConsistencyFault));
}

#[test]
fn consistency_fault_when_present_component_is_not_allocated() {
    let area = area_with_header(1024, 1u64 << 2, 1u64 << 63);
    let mut table = SizingTable::new();
    table.set(2, sizing(576, 256, false));
    assert_eq!(area.layout(&table).err(), Some(XSaveError::ConsistencyFault));
}

#[test]
fn consistency_fault_when_allocated_component_has_no_sizing() {
    let area = area_with_header(1024, 0, (1u64 << 63) | (1 << 4));
    let table = SizingTable::new();
    assert_eq!(area.layout(&table).err(), Some(XSaveError::ConsistencyFault));
}

#[test]
fn bounds_violation_when_component_leaves_the_buffer() {
    let area = area_with_header(1024, 1u64 << 2, 0);
    let mut table = SizingTable::new();
    table.set(2, sizing(576, 10_000, false));
    assert_eq!(area.layout(&table).err(), Some(XSaveError::BoundsViolation));
}

#[test]
fn consistency_fault_wins_over_bounds_violation() {
    // Bit 2 would leave the buffer, but bit 10 is present without sizing:
    // the consistency fault is reported.
    let area = area_with_header(1024, (1u64 << 2) | (1 << 10), 0);
    let mut table = SizingTable::new();
    table.set(2, sizing(576, 10_000, false));
    assert_eq!(area.layout(&table).err(), Some(XSaveError::ConsistencyFault));
}

#[test]
fn allocation_fails_under_the_minimum_size() {
    assert_eq!(
        XSaveArea::allocate(100).err(),
        Some(XSaveError::AllocationError)
    );
    assert!(XSaveArea::allocate(576).is_ok());
}

#[test]
fn adopting_short_buffers_fails() {
    assert_eq!(
        XSaveArea::from_bytes(vec![0u8; 100]).err(),
        Some(XSaveError::BoundsViolation)
    );
    let adopted = XSaveArea::from_bytes(vec![0u8; 600]).unwrap();
    assert_eq!(adopted.len(), 600);
}

#[test]
fn boundary_absent_component_has_no_slice_regardless_of_sizing() {
    // Bit 9 has a sizing entry and is even allocated by the indicator, but
    // the present bitmap leaves it out: no slice.
    let xcomp = (1u64 << 63) | (1 << 2) | (1 << 9);
    let xstate = 1u64 << 2;
    let area = area_with_header(4096, xstate, xcomp);
    let mut table = SizingTable::new();
    table.set(2, sizing(576, 256, false));
    table.set(9, sizing(2688, 8, true));
    let layout = area.layout(&table).unwrap();

    assert!(layout.pkru_state().is_none());
    assert!(layout.extended_state(&area, StateComponent::pkru()).is_none());
    assert!(layout.extended_state(&area, StateComponent::avx()).is_some());
    assert!(layout.x87_state(&area, x86_64_xsave::fxsave_domain::FpuOperatingMode::Mode32Bit).is_none());
    assert!(layout.sse_state(&area).is_none());
}

#[test]
fn round_trip_written_bytes_come_back_at_the_same_offset() {
    let xcomp = (1u64 << 63) | (1 << 2) | (1 << 9);
    let xstate = (1u64 << 2) | (1 << 9);
    let mut area = area_with_header(4096, xstate, xcomp);
    let mut table = SizingTable::new();
    table.set(2, sizing(576, 256, false));
    table.set(9, sizing(2688, 8, true));

    let layout = area.layout(&table).unwrap();
    let pkru = layout.pkru_state().unwrap();
    let sentinel = [0xa5u8, 0x5a, 0x01, 0x02, 0x03, 0x04, 0x05, 0x06];
    area.write_bytes(pkru.byte_offset, &sentinel);

    let layout_again = area.layout(&table).unwrap();
    let pkru_again = layout_again.pkru_state().unwrap();
    assert_eq!(pkru_again.byte_offset, pkru.byte_offset);
    assert_eq!(pkru_again.byte_size, pkru.byte_size);
    let bytes = layout_again.extended_state(&area, StateComponent::pkru()).unwrap();
    assert_eq!(bytes, &sentinel);
}

#[test]
fn decoding_twice_yields_identical_places() {
    let xcomp = (1u64 << 63) | (1 << 2) | (1 << 5) | (1 << 13);
    let xstate = (1u64 << 2) | (1 << 5) | (1 << 13);
    let area = area_with_header(8192, xstate, xcomp);
    let mut table = SizingTable::new();
    table.set(2, sizing(576, 256, false));
    table.set(5, sizing(1088, 64, true));
    table.set(13, sizing(2696, 8, false));

    let first = area.layout(&table).unwrap();
    let second = area.layout(&table).unwrap();
    assert_eq!(first.avx_state(), second.avx_state());
    assert_eq!(first.avx_512_opmask_state(), second.avx_512_opmask_state());
    assert_eq!(first.hdc_state(), second.hdc_state());
    assert_eq!(first.pkru_state(), second.pkru_state());
    assert_eq!(first.area_len(), second.area_len());
}

#[test]
fn uncompacted_offsets_are_taken_from_the_table() {
    let xstate = (1u64 << 3) | (1 << 4) | (1 << 8);
    let area = area_with_header(8192, xstate, 0);
    let mut table = SizingTable::new();
    table.set(3, sizing(960, 64, false));
    table.set(4, sizing(1024, 64, false));
    table.set(8, sizing(2048, 128, false));
    let layout = area.layout(&table).unwrap();

    assert_eq!(layout.mpx_bdnregs_state().unwrap().byte_offset, 960);
    assert_eq!(layout.mpx_bndcsr_state().unwrap().byte_offset, 1024);
    assert_eq!(layout.pt_state().unwrap().byte_offset, 2048);
    assert_eq!(layout.pt_state().unwrap().byte_size, 128);
    assert!(layout.avx_512_zmm_hi256_state().is_none());
    assert!(layout.avx_512_hi16_zmm_state().is_none());
}

#[test]
fn header_survives_a_write_and_read() {
    let mut area = XSaveArea::allocate(1024).unwrap();
    let header = XSaveHeader::new(
        StateComponentBitmap::new(0x8000_0000_0000_0207),
        CompactionStateComponentBitmap::new(0x8000_0000_0000_0204),
    );
    area.write_header(&header);
    let read_back = area.read_header();
    assert_eq!(read_back.xstate_bv.bits, 0x8000_0000_0000_0207);
    assert_eq!(read_back.xcomp_bv.bitmap.bits, 0x8000_0000_0000_0204);
    assert!(read_back.is_extended_region_compacted());
    assert!(read_back.is_present(StateComponent::avx()));
    assert!(!read_back.is_present(StateComponent::bndregs_mpx()));
}

#[test]
fn layout_decode_reports_the_header_it_used() {
    let xstate = 1u64 << 2;
    let area = area_with_header(1024, xstate, 0);
    let mut table = SizingTable::new();
    table.set(2, sizing(576, 128, false));
    let layout = XSaveAreaLayout::decode(area.read_header(), &table, area.len()).unwrap();
    assert_eq!(layout.header().xstate_bv.bits, xstate);
    assert_eq!(layout.area_len(), 1024);
    assert!(layout.is_missing(StateComponent::pkru()));
}
