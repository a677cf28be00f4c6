use x86_64_xsave::fxsave::FXSaveArea;
use x86_64_xsave::fxsave_domain::{
    FloatingPointUnitDataPointerOffset, FloatingPointUnitInstructionPointerOffset,
    FloatingPointOrMMRegisterValue, FpuOperatingMode,
};

fn sample_image() -> Vec<u8> {
    let mut bytes = vec![0u8; 512];
    // Control word 0x037f, status word 0x3801, abridged tag 0x5a,
    // opcode 0x05ab.
    bytes[0] = 0x7f;
    bytes[1] = 0x03;
    bytes[2] = 0x01;
    bytes[3] = 0x38;
    bytes[4] = 0x5a;
    bytes[6] = 0xab;
    bytes[7] = 0x05;
    // Instruction pointer field: 0x1122334455667788, little-endian.
    let ip = [0x88u8, 0x77, 0x66, 0x55, 0x44, 0x33, 0x22, 0x11];
    bytes[8..16].copy_from_slice(&ip);
    // Data pointer field: 0xcafebabe00c0ffee, little-endian.
    let dp = [0xeeu8, 0xff, 0xc0, 0x00, 0xbe, 0xba, 0xfe, 0xca];
    bytes[16..24].copy_from_slice(&dp);
    // SIMD control register 0x00031f80 and mask 0x0000ffff.
    bytes[24] = 0x80;
    bytes[25] = 0x1f;
    bytes[26] = 0x03;
    bytes[28] = 0xff;
    bytes[29] = 0xff;
    // Data register 3 at byte 80: value bytes 0x10..=0x19.
    for k in 0..10 {
        bytes[80 + k] = 0x10 + k as u8;
    }
    // Vector register 15 at byte 400: bytes 0xe0..=0xef.
    for k in 0..16 {
        bytes[400 + k] = 0xe0 + k as u8;
    }
    bytes
}

#[test]
fn legacy_image_words_parse_little_endian() {
    let bytes = sample_image();
    let area = FXSaveArea::from_bytes(&bytes, FpuOperatingMode::Mode64BitWithRexW);
    let (x87_part1, x87_part2) = area.x87_state();
    assert_eq!(x87_part1.fpu_control_word.value, 0x037f);
    assert_eq!(x87_part1.fpu_status_word.value, 0x3801);
    assert_eq!(x87_part1.abridged_fpu_tag_word.value, 0x5a);
    assert_eq!(x87_part1.fpu_opcode.value, 0x05ab);
    assert_eq!(
        x87_part2.st3_or_mm3.floating_point_value(),
        &[0x10, 0x11, 0x12, 0x13, 0x14, 0x15, 0x16, 0x17, 0x18, 0x19]
    );
    let (sse_part1, sse_part2) = area.sse_state();
    assert_eq!(sse_part1.mxcsr_register_value.value, 0x00031f80);
    assert_eq!(sse_part1.mxcsr_register_mask, 0x0000ffff);
    assert_eq!(
        sse_part2.xmm15.value,
        [0xe0, 0xe1, 0xe2, 0xe3, 0xe4, 0xe5, 0xe6, 0xe7, 0xe8, 0xe9, 0xea, 0xeb, 0xec, 0xed,
         0xee, 0xef]
    );
    assert_eq!(sse_part2.xmm0.value, [0u8; 16]);
    assert_eq!(sse_part2.register(15).value[0], 0xe0);
    assert_eq!(x87_part2.register(3).floating_point_value()[9], 0x19);
}

#[test]
fn pointer_fields_follow_the_addressing_mode() {
    let bytes = sample_image();

    let wide = FXSaveArea::from_bytes(&bytes, FpuOperatingMode::Mode64BitWithRexW);
    match wide.x87_state_part_1.fpu_instruction_pointer_offset {
        FloatingPointUnitInstructionPointerOffset::Mode64BitWithRexW(p) => {
            assert_eq!(p.instruction_pointer_offset, 0x1122334455667788);
        }
        _ => panic!("wrong shape for the wide mode"),
    }
    match wide.x87_state_part_1.fpu_data_pointer_offset {
        FloatingPointUnitDataPointerOffset::Mode64BitWithRexW(p) => {
            assert_eq!(p.data_pointer_offset, 0xcafebabe00c0ffee);
        }
        _ => panic!("wrong shape for the wide mode"),
    }

    let narrow = FXSaveArea::from_bytes(&bytes, FpuOperatingMode::Mode32Bit);
    match narrow.x87_state_part_1.fpu_instruction_pointer_offset {
        FloatingPointUnitInstructionPointerOffset::Mode32Bit(p) => {
            assert_eq!(p.instruction_pointer_offset, 0x55667788);
            assert_eq!(p.instruction_pointer_selector, 0x3344);
        }
        _ => panic!("wrong shape for the 32-bit mode"),
    }

    let compat = FXSaveArea::from_bytes(&bytes, FpuOperatingMode::Mode64BitWithoutRexW);
    match compat.x87_state_part_1.fpu_data_pointer_offset {
        FloatingPointUnitDataPointerOffset::Mode64BitWithoutRexW(p) => {
            assert_eq!(p.data_pointer_offset, 0x00c0ffee);
            assert_eq!(p.data_pointer_selector, 0xbabe);
        }
        _ => panic!("wrong shape for the compatibility mode"),
    }

    let small = FXSaveArea::from_bytes(&bytes, FpuOperatingMode::Mode16Bit);
    match small.x87_state_part_1.fpu_instruction_pointer_offset {
        FloatingPointUnitInstructionPointerOffset::Mode16Bit(p) => {
            assert_eq!(p.instruction_pointer_offset, 0x7788);
            assert_eq!(p.instruction_pointer_selector, 0x3344);
        }
        _ => panic!("wrong shape for the 16-bit mode"),
    }
    match small.x87_state_part_1.fpu_data_pointer_offset {
        FloatingPointUnitDataPointerOffset::Mode16Bit(p) => {
            assert_eq!(p.data_pointer_offset, 0xffee);
            assert_eq!(p.data_pointer_selector, 0xbabe);
        }
        _ => panic!("wrong shape for the 16-bit mode"),
    }
}

#[test]
fn register_value_views() {
    let mut register = FloatingPointOrMMRegisterValue::new([
        0x00, 0x01, 0x02, 0x03, 0x04, 0x05, 0x06, 0x07, 0x08, 0x09,
    ]);
    // The multimedia view is the upper eight of the ten stored bytes.
    assert_eq!(register.mm_value(), [0x02, 0x03, 0x04, 0x05, 0x06, 0x07, 0x08, 0x09]);
    register.set_mm_value([0xaa; 8]);
    assert_eq!(
        register.floating_point_value(),
        &[0x00, 0x01, 0xaa, 0xaa, 0xaa, 0xaa, 0xaa, 0xaa, 0xaa, 0xaa]
    );
    register.set_floating_point_value([0x42; 10]);
    assert_eq!(register.mm_value(), [0x42; 8]);
}
