//! The word-sized values of the legacy x87 and SSE save image: the control
//! and status words of the floating-point unit, the abridged tag word, the
//! saved opcode, the mode-dependent instruction and data pointers, and the
//! raw register values.

use vstd::prelude::*;
use crate::bitops::bit16_is_set;
use crate::mxcsr::RoundingControl;

verus! {

/// The precision selected by the two-bit precision-control field of the x87
/// control word (bits 8 and 9).
#[derive(Debug, Clone, Copy, PartialEq, Eq, Structural)]
pub enum PrecisionControl {
    /// Single precision: a 24-bit significand.
    SinglePrecision,
    /// An encoding the architecture reserves.
    Reserved,
    /// Double precision: a 53-bit significand.
    DoublePrecision,
    /// Double extended precision: the full 64-bit significand. The default.
    DoubleExtendedPrecision,
}

impl PrecisionControl {
    /// The two-bit field value that encodes this precision.
    pub open spec fn spec_field_value(self) -> u8 {
        match self {
            PrecisionControl::SinglePrecision => 0,
            PrecisionControl::Reserved => 1,
            PrecisionControl::DoublePrecision => 2,
            PrecisionControl::DoubleExtendedPrecision => 3,
        }
    }

    /// The two-bit field value that encodes this precision.
    pub fn field_value(self) -> (r: u8)
        ensures
            r == self.spec_field_value(),
    {
        match self {
            PrecisionControl::SinglePrecision => 0,
            PrecisionControl::Reserved => 1,
            PrecisionControl::DoublePrecision => 2,
            PrecisionControl::DoubleExtendedPrecision => 3,
        }
    }

    /// The precision encoded by a two-bit field value.
    pub open spec fn spec_from_field_value(v: u8) -> PrecisionControl {
        if v == 0 {
            PrecisionControl::SinglePrecision
        } else if v == 1 {
            PrecisionControl::Reserved
        } else if v == 2 {
            PrecisionControl::DoublePrecision
        } else {
            PrecisionControl::DoubleExtendedPrecision
        }
    }

    /// The precision encoded by a two-bit field value.
    pub fn from_field_value(v: u8) -> (r: PrecisionControl)
        ensures
            r == PrecisionControl::spec_from_field_value(v),
    {
        if v == 0 {
            PrecisionControl::SinglePrecision
        } else if v == 1 {
            PrecisionControl::Reserved
        } else if v == 2 {
            PrecisionControl::DoublePrecision
        } else {
            PrecisionControl::DoubleExtendedPrecision
        }
    }
}

/// A saved value of the 16-bit x87 floating-point-unit control word.
#[derive(Debug, Clone, Copy, PartialEq, Eq, Structural)]
pub struct X87FloatingPointUnitControlWord {
    /// The raw control-word value.
    pub value: u16,
}

impl X87FloatingPointUnitControlWord {
    /// Wraps a raw control-word value.
    pub fn new(value: u16) -> (r: X87FloatingPointUnitControlWord)
        ensures
            r.value == value,
    {
        X87FloatingPointUnitControlWord { value }
    }

    /// Invalid-operation exception mask (bit 0).
    pub fn exception_flag_mask_bit_invalid_operation(self) -> (r: bool)
        ensures
            r == bit16_is_set(self.value, 0),
    {
        self.value & (1u16 << 0) != 0
    }

    /// Denormal-operation exception mask (bit 1).
    pub fn exception_flag_mask_bit_denormal_operation(self) -> (r: bool)
        ensures
            r == bit16_is_set(self.value, 1),
    {
        self.value & (1u16 << 1) != 0
    }

    /// Zero-divide exception mask (bit 2).
    pub fn exception_flag_mask_bit_zero_divide(self) -> (r: bool)
        ensures
            r == bit16_is_set(self.value, 2),
    {
        self.value & (1u16 << 2) != 0
    }

    /// Overflow exception mask (bit 3).
    pub fn exception_flag_mask_bit_overflow(self) -> (r: bool)
        ensures
            r == bit16_is_set(self.value, 3),
    {
        self.value & (1u16 << 3) != 0
    }

    /// Underflow exception mask (bit 4).
    pub fn exception_flag_mask_bit_underflow(self) -> (r: bool)
        ensures
            r == bit16_is_set(self.value, 4),
    {
        self.value & (1u16 << 4) != 0
    }

    /// Precision exception mask (bit 5).
    pub fn exception_flag_mask_bit_precision(self) -> (r: bool)
        ensures
            r == bit16_is_set(self.value, 5),
    {
        self.value & (1u16 << 5) != 0
    }

    /// Precision control, bits 8 and 9.
    pub fn precision_control(self) -> (r: PrecisionControl)
        ensures
            r == PrecisionControl::spec_from_field_value(((self.value >> 8) & 3) as u8),
    {
        proof {
            let v = self.value;
            assert((v >> 8) & 3 < 4) by (bit_vector);
        }
        PrecisionControl::from_field_value(((self.value >> 8) & 3) as u8)
    }

    /// Rounding control, bits 10 and 11.
    pub fn rounding_control(self) -> (r: RoundingControl)
        ensures
            r == RoundingControl::spec_from_field_value(((self.value >> 10) & 3) as u8),
    {
        proof {
            let v = self.value;
            assert((v >> 10) & 3 < 4) by (bit_vector);
        }
        RoundingControl::from_field_value(((self.value >> 10) & 3) as u8)
    }

    /// Infinity control (bit 12); kept only for compatibility with the very
    /// first math coprocessors.
    pub fn infinity_control(self) -> (r: bool)
        ensures
            r == bit16_is_set(self.value, 12),
    {
        self.value & (1u16 << 12) != 0
    }
}

/// A saved value of the 16-bit x87 floating-point-unit status word.
#[derive(Debug, Clone, Copy, PartialEq, Eq, Structural)]
pub struct X87FloatingPointUnitStatusWord {
    /// The raw status-word value.
    pub value: u16,
}

impl X87FloatingPointUnitStatusWord {
    /// Wraps a raw status-word value.
    pub fn new(value: u16) -> (r: X87FloatingPointUnitStatusWord)
        ensures
            r.value == value,
    {
        X87FloatingPointUnitStatusWord { value }
    }

    /// Invalid-operation exception flag (bit 0).
    pub fn exception_flag_invalid_operation(self) -> (r: bool)
        ensures
            r == bit16_is_set(self.value, 0),
    {
        self.value & (1u16 << 0) != 0
    }

    /// Denormalized-operand exception flag (bit 1).
    pub fn exception_flag_denormalized_operand(self) -> (r: bool)
        ensures
            r == bit16_is_set(self.value, 1),
    {
        self.value & (1u16 << 1) != 0
    }

    /// Zero-divide exception flag (bit 2).
    pub fn exception_flag_zero_divide(self) -> (r: bool)
        ensures
            r == bit16_is_set(self.value, 2),
    {
        self.value & (1u16 << 2) != 0
    }

    /// Overflow exception flag (bit 3).
    pub fn exception_flag_overflow(self) -> (r: bool)
        ensures
            r == bit16_is_set(self.value, 3),
    {
        self.value & (1u16 << 3) != 0
    }

    /// Underflow exception flag (bit 4).
    pub fn exception_flag_underflow(self) -> (r: bool)
        ensures
            r == bit16_is_set(self.value, 4),
    {
        self.value & (1u16 << 4) != 0
    }

    /// Precision exception flag (bit 5).
    pub fn exception_flag_precision(self) -> (r: bool)
        ensures
            r == bit16_is_set(self.value, 5),
    {
        self.value & (1u16 << 5) != 0
    }

    /// Stack-fault flag (bit 6).
    pub fn stack_fault(self) -> (r: bool)
        ensures
            r == bit16_is_set(self.value, 6),
    {
        self.value & (1u16 << 6) != 0
    }

    /// Exception summary status (bit 7).
    pub fn exception_summary_status(self) -> (r: bool)
        ensures
            r == bit16_is_set(self.value, 7),
    {
        self.value & (1u16 << 7) != 0
    }

    /// Condition code flag zero (bit 8).
    pub fn condition_code_c0(self) -> (r: bool)
        ensures
            r == bit16_is_set(self.value, 8),
    {
        self.value & (1u16 << 8) != 0
    }

    /// Condition code flag one (bit 9).
    pub fn condition_code_c1(self) -> (r: bool)
        ensures
            r == bit16_is_set(self.value, 9),
    {
        self.value & (1u16 << 9) != 0
    }

    /// Condition code flag two (bit 10).
    pub fn condition_code_c2(self) -> (r: bool)
        ensures
            r == bit16_is_set(self.value, 10),
    {
        self.value & (1u16 << 10) != 0
    }

    /// Condition code flag three (bit 14).
    pub fn condition_code_c3(self) -> (r: bool)
        ensures
            r == bit16_is_set(self.value, 14),
    {
        self.value & (1u16 << 14) != 0
    }

    /// Top of the register stack, bits 11 to 13: the data register currently
    /// at the top, a value from 0 to 7.
    pub fn top(self) -> (r: u8)
        ensures
            r == (self.value >> 11) & 7,
            r < 8,
    {
        proof {
            let v = self.value;
            assert((v >> 11) & 7 < 8) by (bit_vector);
        }
        ((self.value >> 11) & 7) as u8
    }

    /// Unit-busy flag (bit 15); mirrors the exception summary status on
    /// every processor since the original coprocessor.
    pub fn fpu_busy(self) -> (r: bool)
        ensures
            r == bit16_is_set(self.value, 15),
    {
        self.value & (1u16 << 15) != 0
    }
}

/// The abridged tag word of the save image: one bit per data register,
/// clear when the register's tag is empty.
#[derive(Debug, Clone, Copy, PartialEq, Eq, Structural)]
pub struct AbridgedFpuTagWord {
    /// The raw tag byte.
    pub value: u8,
}

impl AbridgedFpuTagWord {
    /// Register `j` carries an empty tag exactly when its bit is clear.
    pub open spec fn spec_register_has_empty_tag(self, j: u8) -> bool
        recommends
            j < 8,
    {
        self.value & (1u8 << j) == 0
    }

    /// Wraps a raw tag byte.
    pub fn new(value: u8) -> (r: AbridgedFpuTagWord)
        ensures
            r.value == value,
    {
        AbridgedFpuTagWord { value }
    }

    /// Data register `j` has an empty tag; `j` must be between 0 and 7.
    #[allow(non_snake_case)]
    pub fn fpu_data_register_STj_has_an_empty_tag(self, j: u8) -> (r: bool)
        requires
            j < 8,
        ensures
            r == self.spec_register_has_empty_tag(j),
    {
        self.value & (1u8 << j) == 0
    }

    /// Data register 0 has an empty tag.
    #[allow(non_snake_case)]
    pub fn fpu_data_register_ST0_has_an_empty_tag(self) -> (r: bool)
        ensures
            r == self.spec_register_has_empty_tag(0),
    {
        self.fpu_data_register_STj_has_an_empty_tag(0)
    }

    /// Data register 1 has an empty tag.
    #[allow(non_snake_case)]
    pub fn fpu_data_register_ST1_has_an_empty_tag(self) -> (r: bool)
        ensures
            r == self.spec_register_has_empty_tag(1),
    {
        self.fpu_data_register_STj_has_an_empty_tag(1)
    }

    /// Data register 2 has an empty tag.
    #[allow(non_snake_case)]
    pub fn fpu_data_register_ST2_has_an_empty_tag(self) -> (r: bool)
        ensures
            r == self.spec_register_has_empty_tag(2),
    {
        self.fpu_data_register_STj_has_an_empty_tag(2)
    }

    /// Data register 3 has an empty tag.
    #[allow(non_snake_case)]
    pub fn fpu_data_register_ST3_has_an_empty_tag(self) -> (r: bool)
        ensures
            r == self.spec_register_has_empty_tag(3),
    {
        self.fpu_data_register_STj_has_an_empty_tag(3)
    }

    /// Data register 4 has an empty tag.
    #[allow(non_snake_case)]
    pub fn fpu_data_register_ST4_has_an_empty_tag(self) -> (r: bool)
        ensures
            r == self.spec_register_has_empty_tag(4),
    {
        self.fpu_data_register_STj_has_an_empty_tag(4)
    }

    /// Data register 5 has an empty tag.
    #[allow(non_snake_case)]
    pub fn fpu_data_register_ST5_has_an_empty_tag(self) -> (r: bool)
        ensures
            r == self.spec_register_has_empty_tag(5),
    {
        self.fpu_data_register_STj_has_an_empty_tag(5)
    }

    /// Data register 6 has an empty tag.
    #[allow(non_snake_case)]
    pub fn fpu_data_register_ST6_has_an_empty_tag(self) -> (r: bool)
        ensures
            r == self.spec_register_has_empty_tag(6),
    {
        self.fpu_data_register_STj_has_an_empty_tag(6)
    }

    /// Data register 7 has an empty tag.
    #[allow(non_snake_case)]
    pub fn fpu_data_register_ST7_has_an_empty_tag(self) -> (r: bool)
        ensures
            r == self.spec_register_has_empty_tag(7),
    {
        self.fpu_data_register_STj_has_an_empty_tag(7)
    }
}

/// The saved 11-bit opcode of the last non-control x87 instruction that
/// raised an unmasked exception. Bits 0 to 7 hold the second opcode byte;
/// bits 8 to 10 hold the low three bits of the first opcode byte, whose
/// upper five bits are the same for every floating-point instruction.
#[derive(Debug, Clone, Copy, PartialEq, Eq, Structural)]
pub struct FloatingPointUnitOpcode {
    /// The raw opcode register value.
    pub value: u16,
}

impl FloatingPointUnitOpcode {
    /// Wraps a raw opcode register value.
    pub fn new(value: u16) -> (r: FloatingPointUnitOpcode)
        ensures
            r.value == value,
    {
        FloatingPointUnitOpcode { value }
    }

    /// The first opcode byte: the fixed upper five bits of every
    /// floating-point opcode joined with the stored low three bits.
    pub fn first_opcode_byte(self) -> (r: u8)
        ensures
            r == 0xd8 | ((self.value >> 8) & 7) as u8,
    {
        proof {
            let v = self.value;
            assert((v >> 8) & 7 < 8) by (bit_vector);
        }
        0xd8u8 | ((self.value >> 8) & 7) as u8
    }

    /// The second opcode byte, stored whole.
    pub fn second_opcode_byte(self) -> (r: u8)
        ensures
            r == self.value & 0xff,
    {
        proof {
            let v = self.value;
            assert(v & 0xff < 0x100) by (bit_vector);
        }
        (self.value & 0xff) as u8
    }
}

/// A saved value of one 80-bit floating-point data register, which doubles
/// as a legacy 64-bit multimedia register. The save image gives each
/// register sixteen bytes, of which the first ten carry the value.
#[derive(Debug, Clone, Copy, PartialEq, Eq)]
pub struct FloatingPointOrMMRegisterValue {
    /// The ten value-carrying bytes, little-endian: the full extended-
    /// precision floating-point value.
    pub register_value: [u8; 10],
}

impl FloatingPointOrMMRegisterValue {
    /// Wraps the ten value-carrying bytes of one register.
    pub fn new(register_value: [u8; 10]) -> (r: FloatingPointOrMMRegisterValue)
        ensures
            r.register_value == register_value,
    {
        FloatingPointOrMMRegisterValue { register_value }
    }

    /// The extended-precision floating-point value, little-endian: one sign
    /// bit, a 15-bit exponent, and a 64-bit significand.
    pub fn floating_point_value(&self) -> (r: &[u8; 10])
        ensures
            r == self.register_value,
    {
        &self.register_value
    }

    /// Replaces the floating-point value.
    pub fn set_floating_point_value(&mut self, value: [u8; 10])
        ensures
            final(self).register_value == value,
    {
        self.register_value = value;
    }

    /// The multimedia-register value, little-endian: the eight upper bytes
    /// of the stored image.
    pub fn mm_value(&self) -> (r: [u8; 8])
        ensures
            r@ == self.register_value@.subrange(2, 10),
    {
        let v = &self.register_value;
        let r: [u8; 8] = [v[2], v[3], v[4], v[5], v[6], v[7], v[8], v[9]];
        proof {
            assert(r@ =~= self.register_value@.subrange(2, 10));
        }
        r
    }

    /// Replaces the multimedia-register value, leaving the other stored
    /// bytes as they were.
    pub fn set_mm_value(&mut self, value: [u8; 8])
        ensures
            final(self).register_value@ == old(self).register_value@.subrange(0, 2) + value@,
    {
        let v = &self.register_value;
        let new_value: [u8; 10] = [
            v[0],
            v[1],
            value[0],
            value[1],
            value[2],
            value[3],
            value[4],
            value[5],
            value[6],
            value[7],
        ];
        self.register_value = new_value;
        proof {
            assert(final(self).register_value@ =~= old(self).register_value@.subrange(0, 2)
                + value@);
        }
    }
}

/// The addressing mode the processor was in when it wrote a save image.
///
/// The instruction-pointer and data-pointer fields of the image have a
/// different shape in each mode, so the mode is chosen once, when the image
/// is decoded, and fixes the shape of those fields.
#[derive(Debug, Clone, Copy, PartialEq, Eq, Structural)]
pub enum FpuOperatingMode {
    /// 16-bit addressing.
    Mode16Bit,
    /// 32-bit addressing.
    Mode32Bit,
    /// 64-bit addressing without an operand-size prefix: a 32-bit offset
    /// with a segment selector.
    Mode64BitWithoutRexW,
    /// 64-bit addressing with the operand-size prefix: a full 64-bit offset.
    Mode64BitWithRexW,
}

/// The instruction-pointer field of a 16-bit-mode save image.
#[derive(Debug, Clone, Copy, PartialEq, Eq, Structural)]
pub struct FloatingPointUnitInstructionPointerOffset16Bit {
    /// The 16-bit instruction-pointer offset.
    pub instruction_pointer_offset: u16,
    /// The code-segment selector; zero on processors that deprecate the
    /// selector fields.
    pub instruction_pointer_selector: u16,
}

/// The instruction-pointer field of a 32-bit-mode save image, also used in
/// 64-bit mode without the operand-size prefix.
#[derive(Debug, Clone, Copy, PartialEq, Eq, Structural)]
pub struct FloatingPointUnitInstructionPointerOffset32Bit {
    /// The 32-bit instruction-pointer offset.
    pub instruction_pointer_offset: u32,
    /// The code-segment selector; zero on processors that deprecate the
    /// selector fields.
    pub instruction_pointer_selector: u16,
}

/// The instruction-pointer field of a 64-bit-mode save image written with
/// the operand-size prefix.
#[derive(Debug, Clone, Copy, PartialEq, Eq, Structural)]
pub struct FloatingPointUnitInstructionPointerOffset64BitWithRexW {
    /// The full 64-bit instruction-pointer offset.
    pub instruction_pointer_offset: u64,
}

/// The saved x87 instruction pointer, shaped by the addressing mode the
/// image was written in. The shape is chosen once, at decode time.
#[derive(Debug, Clone, Copy, PartialEq, Eq, Structural)]
pub enum FloatingPointUnitInstructionPointerOffset {
    /// The 16-bit-mode shape.
    Mode16Bit(FloatingPointUnitInstructionPointerOffset16Bit),
    /// The 32-bit-mode shape.
    Mode32Bit(FloatingPointUnitInstructionPointerOffset32Bit),
    /// The 64-bit-mode shape without the operand-size prefix.
    Mode64BitWithoutRexW(FloatingPointUnitInstructionPointerOffset32Bit),
    /// The 64-bit-mode shape with the operand-size prefix.
    Mode64BitWithRexW(FloatingPointUnitInstructionPointerOffset64BitWithRexW),
}

/// The data-pointer field of a 16-bit-mode save image.
#[derive(Debug, Clone, Copy, PartialEq, Eq, Structural)]
pub struct FloatingPointUnitDataPointerOffset16Bit {
    /// The 16-bit data-pointer offset.
    pub data_pointer_offset: u16,
    /// The data-segment selector; zero on processors that deprecate the
    /// selector fields.
    pub data_pointer_selector: u16,
}

/// The data-pointer field of a 32-bit-mode save image, also used in 64-bit
/// mode without the operand-size prefix.
#[derive(Debug, Clone, Copy, PartialEq, Eq, Structural)]
pub struct FloatingPointUnitDataPointerOffset32Bit {
    /// The 32-bit data-pointer offset.
    pub data_pointer_offset: u32,
    /// The data-segment selector; zero on processors that deprecate the
    /// selector fields.
    pub data_pointer_selector: u16,
}

/// The data-pointer field of a 64-bit-mode save image written with the
/// operand-size prefix.
#[derive(Debug, Clone, Copy, PartialEq, Eq, Structural)]
pub struct FloatingPointUnitDataPointerOffset64BitWithRexW {
    /// The full 64-bit data-pointer offset.
    pub data_pointer_offset: u64,
}

/// The saved x87 data pointer, shaped by the addressing mode the image was
/// written in. The shape is chosen once, at decode time.
#[derive(Debug, Clone, Copy, PartialEq, Eq, Structural)]
pub enum FloatingPointUnitDataPointerOffset {
    /// The 16-bit-mode shape.
    Mode16Bit(FloatingPointUnitDataPointerOffset16Bit),
    /// The 32-bit-mode shape.
    Mode32Bit(FloatingPointUnitDataPointerOffset32Bit),
    /// The 64-bit-mode shape without the operand-size prefix.
    Mode64BitWithoutRexW(FloatingPointUnitDataPointerOffset32Bit),
    /// The 64-bit-mode shape with the operand-size prefix.
    Mode64BitWithRexW(FloatingPointUnitDataPointerOffset64BitWithRexW),
}

} // verus!
