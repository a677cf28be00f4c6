//! The MXCSR control-and-status register of the SIMD floating-point unit.
//!
//! The register holds the exception flags and exception mask bits of SIMD
//! floating-point operation, the rounding-control field, and the
//! flush-to-zero and denormals-are-zeros switches. This module models the
//! saved 32-bit value; reading or writing the live register is the caller's
//! affair.

use vstd::prelude::*;
use crate::bitops::bit32_is_set;

verus! {

/// The rounding mode selected by a two-bit rounding-control field.
///
/// The same two-bit encoding appears in the x87 control word (bits 10 and
/// 11) and in the MXCSR register (bits 13 and 14).
#[derive(Debug, Clone, Copy, PartialEq, Eq, Structural)]
pub enum RoundingControl {
    /// Round to the nearest value, ties to even. The processor's default.
    RoundToNearest,
    /// Round down, toward negative infinity.
    RoundDownTowardNegativeInfinity,
    /// Round up, toward positive infinity.
    RoundUpTowardPositiveInfinity,
    /// Round toward zero (truncate).
    RoundTowardZero,
}

impl RoundingControl {
    /// The two-bit field value that encodes this mode.
    pub open spec fn spec_field_value(self) -> u8 {
        match self {
            RoundingControl::RoundToNearest => 0,
            RoundingControl::RoundDownTowardNegativeInfinity => 1,
            RoundingControl::RoundUpTowardPositiveInfinity => 2,
            RoundingControl::RoundTowardZero => 3,
        }
    }

    /// The two-bit field value that encodes this mode.
    pub fn field_value(self) -> (r: u8)
        ensures
            r == self.spec_field_value(),
    {
        match self {
            RoundingControl::RoundToNearest => 0,
            RoundingControl::RoundDownTowardNegativeInfinity => 1,
            RoundingControl::RoundUpTowardPositiveInfinity => 2,
            RoundingControl::RoundTowardZero => 3,
        }
    }

    /// The mode encoded by a two-bit field value.
    pub open spec fn spec_from_field_value(v: u8) -> RoundingControl {
        if v == 0 {
            RoundingControl::RoundToNearest
        } else if v == 1 {
            RoundingControl::RoundDownTowardNegativeInfinity
        } else if v == 2 {
            RoundingControl::RoundUpTowardPositiveInfinity
        } else {
            RoundingControl::RoundTowardZero
        }
    }

    /// The mode encoded by a two-bit field value.
    pub fn from_field_value(v: u8) -> (r: RoundingControl)
        ensures
            r == RoundingControl::spec_from_field_value(v),
    {
        if v == 0 {
            RoundingControl::RoundToNearest
        } else if v == 1 {
            RoundingControl::RoundDownTowardNegativeInfinity
        } else if v == 2 {
            RoundingControl::RoundUpTowardPositiveInfinity
        } else {
            RoundingControl::RoundTowardZero
        }
    }
}

/// A saved value of the 32-bit MXCSR register.
#[derive(Debug, Clone, Copy, PartialEq, Eq, Structural)]
pub struct MxcsrRegisterValue {
    /// The raw register value.
    pub value: u32,
}

impl MxcsrRegisterValue {
    /// Wraps a raw register value.
    pub fn new(value: u32) -> (r: MxcsrRegisterValue)
        ensures
            r.value == value,
    {
        MxcsrRegisterValue { value }
    }

    /// Invalid-operation exception flag (bit 0).
    pub fn invalid_operation_flag(self) -> (r: bool)
        ensures
            r == bit32_is_set(self.value, 0),
    {
        self.value & (1u32 << 0) != 0
    }

    /// Denormal exception flag (bit 1).
    pub fn denormal_flag(self) -> (r: bool)
        ensures
            r == bit32_is_set(self.value, 1),
    {
        self.value & (1u32 << 1) != 0
    }

    /// Divide-by-zero exception flag (bit 2).
    pub fn divide_by_zero_flag(self) -> (r: bool)
        ensures
            r == bit32_is_set(self.value, 2),
    {
        self.value & (1u32 << 2) != 0
    }

    /// Overflow exception flag (bit 3).
    pub fn overflow_flag(self) -> (r: bool)
        ensures
            r == bit32_is_set(self.value, 3),
    {
        self.value & (1u32 << 3) != 0
    }

    /// Underflow exception flag (bit 4).
    pub fn underflow_flag(self) -> (r: bool)
        ensures
            r == bit32_is_set(self.value, 4),
    {
        self.value & (1u32 << 4) != 0
    }

    /// Precision exception flag (bit 5).
    pub fn precision_flag(self) -> (r: bool)
        ensures
            r == bit32_is_set(self.value, 5),
    {
        self.value & (1u32 << 5) != 0
    }

    /// The six exception flags together, bits 0 to 5.
    pub fn flag_bits(self) -> (r: u8)
        ensures
            r == self.value & 0x3f,
    {
        proof {
            let v = self.value;
            assert(v & 0x3f < 0x40) by (bit_vector);
        }
        (self.value & 0x3f) as u8
    }

    /// Denormals-are-zeros switch (bit 6).
    pub fn denormals_are_zeros(self) -> (r: bool)
        ensures
            r == bit32_is_set(self.value, 6),
    {
        self.value & (1u32 << 6) != 0
    }

    /// Invalid-operation exception mask (bit 7).
    pub fn invalid_operation_mask_bit(self) -> (r: bool)
        ensures
            r == bit32_is_set(self.value, 7),
    {
        self.value & (1u32 << 7) != 0
    }

    /// Denormal exception mask (bit 8).
    pub fn denormal_mask_bit(self) -> (r: bool)
        ensures
            r == bit32_is_set(self.value, 8),
    {
        self.value & (1u32 << 8) != 0
    }

    /// Divide-by-zero exception mask (bit 9).
    pub fn divide_by_zero_mask_bit(self) -> (r: bool)
        ensures
            r == bit32_is_set(self.value, 9),
    {
        self.value & (1u32 << 9) != 0
    }

    /// Overflow exception mask (bit 10).
    pub fn overflow_mask_bit(self) -> (r: bool)
        ensures
            r == bit32_is_set(self.value, 10),
    {
        self.value & (1u32 << 10) != 0
    }

    /// Underflow exception mask (bit 11).
    pub fn underflow_mask_bit(self) -> (r: bool)
        ensures
            r == bit32_is_set(self.value, 11),
    {
        self.value & (1u32 << 11) != 0
    }

    /// Precision exception mask (bit 12).
    pub fn precision_mask_bit(self) -> (r: bool)
        ensures
            r == bit32_is_set(self.value, 12),
    {
        self.value & (1u32 << 12) != 0
    }

    /// The six exception masks together, bits 7 to 12.
    pub fn mask_bits(self) -> (r: u8)
        ensures
            r == (self.value >> 7) & 0x3f,
    {
        proof {
            let v = self.value;
            assert((v >> 7) & 0x3f < 0x40) by (bit_vector);
        }
        ((self.value >> 7) & 0x3f) as u8
    }

    /// Rounding control, bits 13 and 14.
    pub fn rounding_control(self) -> (r: RoundingControl)
        ensures
            r == RoundingControl::spec_from_field_value(((self.value >> 13) & 3) as u8),
    {
        proof {
            let v = self.value;
            assert((v >> 13) & 3 < 4) by (bit_vector);
        }
        RoundingControl::from_field_value(((self.value >> 13) & 3) as u8)
    }

    /// Flush-to-zero switch (bit 15).
    pub fn flush_to_zero(self) -> (r: bool)
        ensures
            r == bit32_is_set(self.value, 15),
    {
        self.value & (1u32 << 15) != 0
    }
}

} // verus!
