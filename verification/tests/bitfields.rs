use x86_64_xsave::extended_state_information::{CpuidRegisters, ExtendedStateInformation};
use x86_64_xsave::fxsave_domain::{
    AbridgedFpuTagWord, FloatingPointUnitOpcode, PrecisionControl, X87FloatingPointUnitControlWord,
    X87FloatingPointUnitStatusWord,
};
use x86_64_xsave::mxcsr::{MxcsrRegisterValue, RoundingControl};
use x86_64_xsave::sizing_table::SizingTable;
use x86_64_xsave::state_component_bitmaps::{CompactionStateComponentBitmap, StateComponentBitmap};
use x86_64_xsave::state_components::{
    NotSizingQueryableUserStateComponent, SizingQueryableUserStateComponent, StateComponent,
    StateComponentSizing, SupervisorStateComponent, SupportedIn, UserStateComponent,
};

#[test]
fn mxcsr_flag_and_mask_bits() {
    // Flags: invalid operation (0) and overflow (3); masks: denormal (8)
    // and precision (12); denormals-are-zeros (6) and flush-to-zero (15).
    let value = (1u32 << 0) | (1 << 3) | (1 << 6) | (1 << 8) | (1 << 12) | (1 << 15);
    let mxcsr = MxcsrRegisterValue::new(value);
    assert!(mxcsr.invalid_operation_flag());
    assert!(!mxcsr.denormal_flag());
    assert!(!mxcsr.divide_by_zero_flag());
    assert!(mxcsr.overflow_flag());
    assert!(!mxcsr.underflow_flag());
    assert!(!mxcsr.precision_flag());
    assert_eq!(mxcsr.flag_bits(), 0b001001);
    assert!(mxcsr.denormals_are_zeros());
    assert!(!mxcsr.invalid_operation_mask_bit());
    assert!(mxcsr.denormal_mask_bit());
    assert!(!mxcsr.divide_by_zero_mask_bit());
    assert!(!mxcsr.overflow_mask_bit());
    assert!(!mxcsr.underflow_mask_bit());
    assert!(mxcsr.precision_mask_bit());
    assert_eq!(mxcsr.mask_bits(), 0b100010);
    assert!(mxcsr.flush_to_zero());
}

#[test]
fn mxcsr_rounding_control_field() {
    assert_eq!(
        MxcsrRegisterValue::new(0).rounding_control(),
        RoundingControl::RoundToNearest
    );
    assert_eq!(
        MxcsrRegisterValue::new(1 << 13).rounding_control(),
        RoundingControl::RoundDownTowardNegativeInfinity
    );
    assert_eq!(
        MxcsrRegisterValue::new(2 << 13).rounding_control(),
        RoundingControl::RoundUpTowardPositiveInfinity
    );
    assert_eq!(
        MxcsrRegisterValue::new(3 << 13).rounding_control(),
        RoundingControl::RoundTowardZero
    );
    assert_eq!(RoundingControl::RoundTowardZero.field_value(), 3);
    assert_eq!(RoundingControl::from_field_value(2), RoundingControl::RoundUpTowardPositiveInfinity);
}

#[test]
fn control_word_fields() {
    // Masks: invalid operation (0), underflow (4); precision control 0b10
    // (double precision); rounding 0b01 (down); infinity control set.
    let value = (1u16 << 0) | (1 << 4) | (2 << 8) | (1 << 10) | (1 << 12);
    let control = X87FloatingPointUnitControlWord::new(value);
    assert!(control.exception_flag_mask_bit_invalid_operation());
    assert!(!control.exception_flag_mask_bit_denormal_operation());
    assert!(!control.exception_flag_mask_bit_zero_divide());
    assert!(!control.exception_flag_mask_bit_overflow());
    assert!(control.exception_flag_mask_bit_underflow());
    assert!(!control.exception_flag_mask_bit_precision());
    assert_eq!(control.precision_control(), PrecisionControl::DoublePrecision);
    assert_eq!(
        control.rounding_control(),
        RoundingControl::RoundDownTowardNegativeInfinity
    );
    assert!(control.infinity_control());
    assert_eq!(PrecisionControl::DoubleExtendedPrecision.field_value(), 3);
    assert_eq!(PrecisionControl::from_field_value(0), PrecisionControl::SinglePrecision);
}

#[test]
fn status_word_fields() {
    // Flags: zero divide (2), precision (5); stack fault (6); summary (7);
    // condition codes c0 (8) and c3 (14); top of stack 5 (bits 11..13);
    // busy (15).
    let value = (1u16 << 2) | (1 << 5) | (1 << 6) | (1 << 7) | (1 << 8) | (5 << 11) | (1 << 14)
        | (1 << 15);
    let status = X87FloatingPointUnitStatusWord::new(value);
    assert!(!status.exception_flag_invalid_operation());
    assert!(!status.exception_flag_denormalized_operand());
    assert!(status.exception_flag_zero_divide());
    assert!(!status.exception_flag_overflow());
    assert!(!status.exception_flag_underflow());
    assert!(status.exception_flag_precision());
    assert!(status.stack_fault());
    assert!(status.exception_summary_status());
    assert!(status.condition_code_c0());
    assert!(!status.condition_code_c1());
    assert!(!status.condition_code_c2());
    assert!(status.condition_code_c3());
    assert_eq!(status.top(), 5);
    assert!(status.fpu_busy());
}

#[test]
#[allow(non_snake_case)]
fn abridged_tag_word_reports_empty_tags() {
    // A clear bit means the register's tag is empty.
    let tag = AbridgedFpuTagWord::new(0b0101_0010);
    assert!(tag.fpu_data_register_ST0_has_an_empty_tag());
    assert!(!tag.fpu_data_register_ST1_has_an_empty_tag());
    assert!(tag.fpu_data_register_ST2_has_an_empty_tag());
    assert!(tag.fpu_data_register_ST3_has_an_empty_tag());
    assert!(!tag.fpu_data_register_ST4_has_an_empty_tag());
    assert!(tag.fpu_data_register_ST5_has_an_empty_tag());
    assert!(!tag.fpu_data_register_ST6_has_an_empty_tag());
    assert!(tag.fpu_data_register_ST7_has_an_empty_tag());
    assert!(tag.fpu_data_register_STj_has_an_empty_tag(3));
    assert!(!tag.fpu_data_register_STj_has_an_empty_tag(6));
}

#[test]
fn opcode_bytes_are_reassembled() {
    // Stored 11 bits 0x5ab: low three bits of the first byte are 0b101,
    // the second byte is 0xab.
    let opcode = FloatingPointUnitOpcode::new(0x05ab);
    assert_eq!(opcode.first_opcode_byte(), 0xd8 | 0b101);
    assert_eq!(opcode.second_opcode_byte(), 0xab);
}

#[test]
fn capability_registers_decode_bit_exactly() {
    let sub0 = CpuidRegisters { eax: 0x0000_0207, ebx: 0x0000_0340, ecx: 0x0000_0440, edx: 0x8000_0000 };
    let sub1 = CpuidRegisters { eax: 0b1011, ebx: 0x0000_0988, ecx: 0x0000_2100, edx: 0x0000_0001 };
    let info = ExtendedStateInformation::new(sub0, sub1);
    assert_eq!(info.xsave_state_components_present.bits, 0x8000_0000_0000_0207);
    assert_eq!(info.xsave_area_size_supported_features, 0x440);
    assert_eq!(info.xsave_area_size_enabled_features, 0x340);
    assert_eq!(info.xsaves_state_components_present.bits, 0x0000_0001_0000_2100);
    assert_eq!(info.xsaves_area_size_enabled_features, 0x988);
    assert!(info.has_xsaveopt_feature);
    assert!(info.has_xsavec_feature);
    assert!(!info.xgetbv_supports_ecx_equals_one);
    assert!(info.has_xsaves_feature);

    assert!(info.user_state_component_possible(
        SizingQueryableUserStateComponent::Avx.to_user_state_component()
    ));
    assert!(!info.user_state_component_possible(
        SizingQueryableUserStateComponent::BndRegsMpx.to_user_state_component()
    ));
    assert!(!info.supervisor_state_component_possible(SupervisorStateComponent::Pt));
}

#[test]
fn extended_functionality_range_check() {
    assert!(ExtendedStateInformation::is_extended_functionality_type_supported(
        0x8000_0008,
        0x0000_0008
    ));
    assert!(ExtendedStateInformation::is_extended_functionality_type_supported(
        0x8000_000d,
        0x0000_000d
    ));
    assert!(!ExtendedStateInformation::is_extended_functionality_type_supported(
        0x8000_0008,
        0x0000_0009
    ));
    assert!(!ExtendedStateInformation::is_extended_functionality_type_supported(0, 0x0d));
    assert!(!ExtendedStateInformation::is_extended_functionality_type_supported(
        0x7fff_ffff,
        0
    ));
}

#[test]
fn sizing_from_capability_registers() {
    assert_eq!(StateComponentSizing::from_registers(0, 576, 0), None);
    let avx = StateComponentSizing::from_registers(256, 576, 0).unwrap();
    assert_eq!(avx.size, 256);
    assert_eq!(avx.uncompacted_byte_offset, 576);
    assert_eq!(avx.supported_in, SupportedIn::Xcr0);
    assert!(!avx.requires_alignment_if_compacted);
    let pt = StateComponentSizing::from_registers(128, 0, 3).unwrap();
    assert_eq!(pt.supported_in, SupportedIn::Ia32Xss);
    assert!(pt.requires_alignment_if_compacted);
    let aligned_user = StateComponentSizing::from_registers(8, 2688, 2).unwrap();
    assert_eq!(aligned_user.supported_in, SupportedIn::Xcr0);
    assert!(aligned_user.requires_alignment_if_compacted);
}

#[test]
fn component_bit_indices() {
    assert_eq!(StateComponent::x87().bit(), 0);
    assert_eq!(StateComponent::sse().bit(), 1);
    assert_eq!(StateComponent::avx().bit(), 2);
    assert_eq!(StateComponent::bndregs_mpx().bit(), 3);
    assert_eq!(StateComponent::bndcsr_mpx().bit(), 4);
    assert_eq!(StateComponent::opmask_avx_512().bit(), 5);
    assert_eq!(StateComponent::zmm_hi256_avx_512().bit(), 6);
    assert_eq!(StateComponent::hi16_zmm_avx_512().bit(), 7);
    assert_eq!(StateComponent::pt().bit(), 8);
    assert_eq!(StateComponent::pkru().bit(), 9);
    assert_eq!(StateComponent::hdc().bit(), 13);

    let user = NotSizingQueryableUserStateComponent::X87.to_user_state_component();
    assert_eq!(user.bit(), 0);
    assert_eq!(StateComponent::user_state_component(user).bit(), 0);
    assert_eq!(
        StateComponent::not_sizing_queryable_user_state_component(
            NotSizingQueryableUserStateComponent::Sse
        )
        .bit(),
        1
    );
    assert_eq!(
        StateComponent::sizing_queryable_user_state_component(
            SizingQueryableUserStateComponent::Pkru
        )
        .bit(),
        9
    );
    assert_eq!(
        StateComponent::sizing_queryable_supervisor_state_component(SupervisorStateComponent::Hdc)
            .bit(),
        13
    );
    assert_eq!(SupervisorStateComponent::Pt.to_state_component().bit(), 8);
    assert_eq!(
        UserStateComponent::SizingQueryable(SizingQueryableUserStateComponent::BndCsrMpx)
            .to_state_component()
            .bit(),
        4
    );
}

#[test]
fn sizing_lookups_go_through_the_table() {
    let mut table = SizingTable::new();
    let avx = StateComponentSizing {
        uncompacted_byte_offset: 576,
        size: 256,
        supported_in: SupportedIn::Xcr0,
        requires_alignment_if_compacted: false,
    };
    table.set(2, avx);
    assert_eq!(StateComponent::avx().sizing(&table), Some(avx));
    assert_eq!(SizingQueryableUserStateComponent::Avx.sizing(&table), Some(avx));
    assert_eq!(StateComponent::pkru().sizing(&table), None);
    assert_eq!(SupervisorStateComponent::Pt.sizing(&table), None);
    // Legacy components never have a tabulated sizing.
    assert_eq!(StateComponent::x87().sizing(&table), None);
    assert_eq!(StateComponent::sse().sizing(&table), None);
    table.clear(2);
    assert_eq!(StateComponent::avx().sizing(&table), None);
}

#[test]
fn bitmap_membership_and_union() {
    let mut bitmap = StateComponentBitmap::empty();
    assert!(!bitmap.is_present(StateComponent::avx()));
    bitmap.set_is_present(StateComponent::avx());
    bitmap.set_is_present(StateComponent::hdc());
    assert!(bitmap.is_present(StateComponent::avx()));
    assert!(bitmap.is_present(StateComponent::hdc()));
    assert!(!bitmap.is_present(StateComponent::x87()));
    assert_eq!(bitmap.bits, (1 << 2) | (1 << 13));
    assert!(bitmap.bit_set(2));
    assert!(!bitmap.bit_set(3));
    assert!(bitmap.bits_are_zero(1 << 3));
    assert!(!bitmap.bits_are_zero(1 << 2));

    let other = StateComponentBitmap::new(1 << 9);
    let both = bitmap.union(other);
    assert_eq!(both.bits, (1 << 2) | (1 << 9) | (1 << 13));
}

#[test]
fn compaction_indicator_wrapper() {
    let plain = CompactionStateComponentBitmap::uncompacted();
    assert!(!plain.is_extended_region_compacted());
    let compacted = CompactionStateComponentBitmap::new((1u64 << 63) | (1 << 2));
    assert!(compacted.is_extended_region_compacted());
    assert!(compacted.is_present(StateComponent::avx()));
    assert!(!compacted.is_present(StateComponent::pkru()));
    assert!(compacted.bit_set(2));
    assert!(!compacted.bit_set(9));
    assert!(compacted.bits_are_zero(1 << 9));
    assert_eq!(
        compacted.state_component_bitmap().bits,
        (1u64 << 63) | (1 << 2)
    );
}
