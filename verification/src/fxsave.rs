//! The 512-byte legacy save image written by the legacy save instruction and
//! reused unchanged as the first 512 bytes of every extended save area.
//!
//! The image holds the x87 and SSE state in two non-contiguous parts each:
//! the x87 words and pointers at the start, the SSE control register after
//! them, the eight x87 data registers next, and the sixteen vector registers
//! last. This module parses the image into plain values; writing the image
//! is the processor's work and stays outside the crate.

use vstd::prelude::*;
use crate::byte_codec::{read_u16_le, read_u32_le, read_u64_le, spec_u16_le, spec_u32_le, spec_u64_le};
use crate::fxsave_domain::{
    AbridgedFpuTagWord,
    FloatingPointOrMMRegisterValue,
    FloatingPointUnitDataPointerOffset,
    FloatingPointUnitDataPointerOffset16Bit,
    FloatingPointUnitDataPointerOffset32Bit,
    FloatingPointUnitDataPointerOffset64BitWithRexW,
    FloatingPointUnitInstructionPointerOffset,
    FloatingPointUnitInstructionPointerOffset16Bit,
    FloatingPointUnitInstructionPointerOffset32Bit,
    FloatingPointUnitInstructionPointerOffset64BitWithRexW,
    FloatingPointUnitOpcode,
    FpuOperatingMode,
    X87FloatingPointUnitControlWord,
    X87FloatingPointUnitStatusWord,
};
use crate::mxcsr::MxcsrRegisterValue;

verus! {

/// The first part of the x87 state: the unit's words, the saved opcode, and
/// the two saved pointers. Bytes 0 to 23 of the image.
#[derive(Debug, Clone, Copy, PartialEq, Eq, Structural)]
pub struct X87StatePart1 {
    /// The control word, at byte 0.
    pub fpu_control_word: X87FloatingPointUnitControlWord,
    /// The status word, at byte 2.
    pub fpu_status_word: X87FloatingPointUnitStatusWord,
    /// The abridged tag word, at byte 4.
    pub abridged_fpu_tag_word: AbridgedFpuTagWord,
    /// The saved opcode, at byte 6.
    pub fpu_opcode: FloatingPointUnitOpcode,
    /// The saved instruction pointer, at byte 8, shaped by the addressing
    /// mode.
    pub fpu_instruction_pointer_offset: FloatingPointUnitInstructionPointerOffset,
    /// The saved data pointer, at byte 16, shaped by the addressing mode.
    pub fpu_data_pointer_offset: FloatingPointUnitDataPointerOffset,
}

/// The second part of the x87 state: the eight data registers, sixteen
/// bytes apart from byte 32 of the image on.
#[derive(Debug, Clone, Copy, PartialEq, Eq)]
pub struct X87StatePart2 {
    /// Data register 0, doubling as multimedia register 0.
    pub st0_or_mm0: FloatingPointOrMMRegisterValue,
    /// Data register 1, doubling as multimedia register 1.
    pub st1_or_mm1: FloatingPointOrMMRegisterValue,
    /// Data register 2, doubling as multimedia register 2.
    pub st2_or_mm2: FloatingPointOrMMRegisterValue,
    /// Data register 3, doubling as multimedia register 3.
    pub st3_or_mm3: FloatingPointOrMMRegisterValue,
    /// Data register 4, doubling as multimedia register 4.
    pub st4_or_mm4: FloatingPointOrMMRegisterValue,
    /// Data register 5, doubling as multimedia register 5.
    pub st5_or_mm5: FloatingPointOrMMRegisterValue,
    /// Data register 6, doubling as multimedia register 6.
    pub st6_or_mm6: FloatingPointOrMMRegisterValue,
    /// Data register 7, doubling as multimedia register 7.
    pub st7_or_mm7: FloatingPointOrMMRegisterValue,
}

impl X87StatePart2 {
    /// Data register `j`, counted as the image stores them.
    pub open spec fn spec_register(self, j: int) -> FloatingPointOrMMRegisterValue
        recommends
            0 <= j < 8,
    {
        if j == 0 {
            self.st0_or_mm0
        } else if j == 1 {
            self.st1_or_mm1
        } else if j == 2 {
            self.st2_or_mm2
        } else if j == 3 {
            self.st3_or_mm3
        } else if j == 4 {
            self.st4_or_mm4
        } else if j == 5 {
            self.st5_or_mm5
        } else if j == 6 {
            self.st6_or_mm6
        } else {
            self.st7_or_mm7
        }
    }

    /// Data register `j`, counted as the image stores them.
    pub fn register(&self, j: u8) -> (r: &FloatingPointOrMMRegisterValue)
        requires
            j < 8,
        ensures
            *r == self.spec_register(j as int),
    {
        if j == 0 {
            &self.st0_or_mm0
        } else if j == 1 {
            &self.st1_or_mm1
        } else if j == 2 {
            &self.st2_or_mm2
        } else if j == 3 {
            &self.st3_or_mm3
        } else if j == 4 {
            &self.st4_or_mm4
        } else if j == 5 {
            &self.st5_or_mm5
        } else if j == 6 {
            &self.st6_or_mm6
        } else {
            &self.st7_or_mm7
        }
    }
}

/// A saved value of one 128-bit vector register.
#[derive(Debug, Clone, Copy, PartialEq, Eq)]
pub struct SseXmmRegisterValue {
    /// The sixteen register bytes, little-endian.
    pub value: [u8; 16],
}

/// The first part of the SSE state: the SIMD control-and-status register and
/// its write mask. Bytes 24 to 31 of the image.
#[derive(Debug, Clone, Copy, PartialEq, Eq, Structural)]
pub struct SseStatePart1 {
    /// The saved control-and-status register, at byte 24.
    pub mxcsr_register_value: MxcsrRegisterValue,
    /// The mask of the register's writable bits, at byte 28. The processor
    /// writes it and never reads it back.
    pub mxcsr_register_mask: u32,
}

/// The second part of the SSE state: the sixteen vector registers, sixteen
/// bytes apart from byte 160 of the image on.
#[derive(Debug, Clone, Copy, PartialEq, Eq)]
pub struct SseStatePart2 {
    /// Vector register 0.
    pub xmm0: SseXmmRegisterValue,
    /// Vector register 1.
    pub xmm1: SseXmmRegisterValue,
    /// Vector register 2.
    pub xmm2: SseXmmRegisterValue,
    /// Vector register 3.
    pub xmm3: SseXmmRegisterValue,
    /// Vector register 4.
    pub xmm4: SseXmmRegisterValue,
    /// Vector register 5.
    pub xmm5: SseXmmRegisterValue,
    /// Vector register 6.
    pub xmm6: SseXmmRegisterValue,
    /// Vector register 7.
    pub xmm7: SseXmmRegisterValue,
    /// Vector register 8; written only in 64-bit mode.
    pub xmm8: SseXmmRegisterValue,
    /// Vector register 9; written only in 64-bit mode.
    pub xmm9: SseXmmRegisterValue,
    /// Vector register 10; written only in 64-bit mode.
    pub xmm10: SseXmmRegisterValue,
    /// Vector register 11; written only in 64-bit mode.
    pub xmm11: SseXmmRegisterValue,
    /// Vector register 12; written only in 64-bit mode.
    pub xmm12: SseXmmRegisterValue,
    /// Vector register 13; written only in 64-bit mode.
    pub xmm13: SseXmmRegisterValue,
    /// Vector register 14; written only in 64-bit mode.
    pub xmm14: SseXmmRegisterValue,
    /// Vector register 15; written only in 64-bit mode.
    pub xmm15: SseXmmRegisterValue,
}

impl SseStatePart2 {
    /// Vector register `j`, counted as the image stores them.
    pub open spec fn spec_register(self, j: int) -> SseXmmRegisterValue
        recommends
            0 <= j < 16,
    {
        if j == 0 {
            self.xmm0
        } else if j == 1 {
            self.xmm1
        } else if j == 2 {
            self.xmm2
        } else if j == 3 {
            self.xmm3
        } else if j == 4 {
            self.xmm4
        } else if j == 5 {
            self.xmm5
        } else if j == 6 {
            self.xmm6
        } else if j == 7 {
            self.xmm7
        } else if j == 8 {
            self.xmm8
        } else if j == 9 {
            self.xmm9
        } else if j == 10 {
            self.xmm10
        } else if j == 11 {
            self.xmm11
        } else if j == 12 {
            self.xmm12
        } else if j == 13 {
            self.xmm13
        } else if j == 14 {
            self.xmm14
        } else {
            self.xmm15
        }
    }

    /// Vector register `j`, counted as the image stores them.
    pub fn register(&self, j: u8) -> (r: &SseXmmRegisterValue)
        requires
            j < 16,
        ensures
            *r == self.spec_register(j as int),
    {
        if j == 0 {
            &self.xmm0
        } else if j == 1 {
            &self.xmm1
        } else if j == 2 {
            &self.xmm2
        } else if j == 3 {
            &self.xmm3
        } else if j == 4 {
            &self.xmm4
        } else if j == 5 {
            &self.xmm5
        } else if j == 6 {
            &self.xmm6
        } else if j == 7 {
            &self.xmm7
        } else if j == 8 {
            &self.xmm8
        } else if j == 9 {
            &self.xmm9
        } else if j == 10 {
            &self.xmm10
        } else if j == 11 {
            &self.xmm11
        } else if j == 12 {
            &self.xmm12
        } else if j == 13 {
            &self.xmm13
        } else if j == 14 {
            &self.xmm14
        } else {
            &self.xmm15
        }
    }
}

/// The saved instruction pointer that an image holds at `at`, read in the
/// shape of the given addressing mode.
pub open spec fn spec_parse_instruction_pointer(s: Seq<u8>, at: int, mode: FpuOperatingMode)
    -> FloatingPointUnitInstructionPointerOffset
    recommends
        0 <= at,
        at + 8 <= s.len(),
{
    match mode {
        FpuOperatingMode::Mode16Bit => FloatingPointUnitInstructionPointerOffset::Mode16Bit(
            FloatingPointUnitInstructionPointerOffset16Bit {
                instruction_pointer_offset: spec_u16_le(s, at) as u16,
                instruction_pointer_selector: spec_u16_le(s, at + 4) as u16,
            },
        ),
        FpuOperatingMode::Mode32Bit => FloatingPointUnitInstructionPointerOffset::Mode32Bit(
            FloatingPointUnitInstructionPointerOffset32Bit {
                instruction_pointer_offset: spec_u32_le(s, at) as u32,
                instruction_pointer_selector: spec_u16_le(s, at + 4) as u16,
            },
        ),
        FpuOperatingMode::Mode64BitWithoutRexW
            => FloatingPointUnitInstructionPointerOffset::Mode64BitWithoutRexW(
            FloatingPointUnitInstructionPointerOffset32Bit {
                instruction_pointer_offset: spec_u32_le(s, at) as u32,
                instruction_pointer_selector: spec_u16_le(s, at + 4) as u16,
            },
        ),
        FpuOperatingMode::Mode64BitWithRexW
            => FloatingPointUnitInstructionPointerOffset::Mode64BitWithRexW(
            FloatingPointUnitInstructionPointerOffset64BitWithRexW {
                instruction_pointer_offset: spec_u64_le(s, at) as u64,
            },
        ),
    }
}

/// The saved data pointer that an image holds at `at`, read in the shape of
/// the given addressing mode.
pub open spec fn spec_parse_data_pointer(s: Seq<u8>, at: int, mode: FpuOperatingMode)
    -> FloatingPointUnitDataPointerOffset
    recommends
        0 <= at,
        at + 8 <= s.len(),
{
    match mode {
        FpuOperatingMode::Mode16Bit => FloatingPointUnitDataPointerOffset::Mode16Bit(
            FloatingPointUnitDataPointerOffset16Bit {
                data_pointer_offset: spec_u16_le(s, at) as u16,
                data_pointer_selector: spec_u16_le(s, at + 4) as u16,
            },
        ),
        FpuOperatingMode::Mode32Bit => FloatingPointUnitDataPointerOffset::Mode32Bit(
            FloatingPointUnitDataPointerOffset32Bit {
                data_pointer_offset: spec_u32_le(s, at) as u32,
                data_pointer_selector: spec_u16_le(s, at + 4) as u16,
            },
        ),
        FpuOperatingMode::Mode64BitWithoutRexW
            => FloatingPointUnitDataPointerOffset::Mode64BitWithoutRexW(
            FloatingPointUnitDataPointerOffset32Bit {
                data_pointer_offset: spec_u32_le(s, at) as u32,
                data_pointer_selector: spec_u16_le(s, at + 4) as u16,
            },
        ),
        FpuOperatingMode::Mode64BitWithRexW
            => FloatingPointUnitDataPointerOffset::Mode64BitWithRexW(
            FloatingPointUnitDataPointerOffset64BitWithRexW {
                data_pointer_offset: spec_u64_le(s, at) as u64,
            },
        ),
    }
}

/// `p` holds exactly what a legacy save image whose bytes are `s` stores in
/// its first x87 part, read in the shape of `mode`.
pub open spec fn spec_is_parsed_x87_part1(p: X87StatePart1, s: Seq<u8>, mode: FpuOperatingMode)
    -> bool
    recommends
        s.len() >= 512,
{
    &&& p.fpu_control_word.value == spec_u16_le(s, 0)
    &&& p.fpu_status_word.value == spec_u16_le(s, 2)
    &&& p.abridged_fpu_tag_word.value == s[4]
    &&& p.fpu_opcode.value == spec_u16_le(s, 6)
    &&& p.fpu_instruction_pointer_offset == spec_parse_instruction_pointer(s, 8, mode)
    &&& p.fpu_data_pointer_offset == spec_parse_data_pointer(s, 16, mode)
}

/// `p` holds exactly the eight data registers that a legacy save image whose
/// bytes are `s` stores.
pub open spec fn spec_is_parsed_x87_part2(p: X87StatePart2, s: Seq<u8>) -> bool
    recommends
        s.len() >= 512,
{
    forall|j: int|
        0 <= j < 8 ==> (#[trigger] p.spec_register(j)).register_value@ == s.subrange(
            32 + 16 * j,
            42 + 16 * j,
        )
}

/// `p` holds exactly the SIMD control register and mask that a legacy save
/// image whose bytes are `s` stores.
pub open spec fn spec_is_parsed_sse_part1(p: SseStatePart1, s: Seq<u8>) -> bool
    recommends
        s.len() >= 512,
{
    &&& p.mxcsr_register_value.value == spec_u32_le(s, 24)
    &&& p.mxcsr_register_mask == spec_u32_le(s, 28)
}

/// `p` holds exactly the sixteen vector registers that a legacy save image
/// whose bytes are `s` stores.
pub open spec fn spec_is_parsed_sse_part2(p: SseStatePart2, s: Seq<u8>) -> bool
    recommends
        s.len() >= 512,
{
    forall|j: int|
        0 <= j < 16 ==> (#[trigger] p.spec_register(j)).value@ == s.subrange(
            160 + 16 * j,
            176 + 16 * j,
        )
}

/// `area` holds exactly what a legacy save image whose first 512 bytes are
/// `s` stores, read in the shape of `mode`.
pub open spec fn spec_is_parsed_fxsave(area: FXSaveArea, s: Seq<u8>, mode: FpuOperatingMode)
    -> bool
    recommends
        s.len() >= 512,
{
    &&& spec_is_parsed_x87_part1(area.x87_state_part_1, s, mode)
    &&& spec_is_parsed_x87_part2(area.x87_state_part_2, s)
    &&& spec_is_parsed_sse_part1(area.sse_state_part_1, s)
    &&& spec_is_parsed_sse_part2(area.sse_state_part_2, s)
}

/// The legacy save image, parsed into plain values.
#[derive(Debug, Clone, Copy, PartialEq, Eq)]
pub struct FXSaveArea {
    /// The x87 words, opcode and pointers.
    pub x87_state_part_1: X87StatePart1,
    /// The SIMD control-and-status register and its mask.
    pub sse_state_part_1: SseStatePart1,
    /// The eight x87 data registers.
    pub x87_state_part_2: X87StatePart2,
    /// The sixteen vector registers.
    pub sse_state_part_2: SseStatePart2,
}

/// Reads the ten value-carrying bytes of one x87 data register.
fn read_register_value(bytes: &[u8], at: usize) -> (r: FloatingPointOrMMRegisterValue)
    requires
        at + 10 <= bytes@.len(),
    ensures
        r.register_value@ == bytes@.subrange(at as int, at + 10),
{
    let v: [u8; 10] = [
        bytes[at],
        bytes[at + 1],
        bytes[at + 2],
        bytes[at + 3],
        bytes[at + 4],
        bytes[at + 5],
        bytes[at + 6],
        bytes[at + 7],
        bytes[at + 8],
        bytes[at + 9],
    ];
    proof {
        assert(v@ =~= bytes@.subrange(at as int, at + 10));
    }
    FloatingPointOrMMRegisterValue { register_value: v }
}

/// Reads the sixteen bytes of one vector register.
fn read_xmm_value(bytes: &[u8], at: usize) -> (r: SseXmmRegisterValue)
    requires
        at + 16 <= bytes@.len(),
    ensures
        r.value@ == bytes@.subrange(at as int, at + 16),
{
    let v: [u8; 16] = [
        bytes[at],
        bytes[at + 1],
        bytes[at + 2],
        bytes[at + 3],
        bytes[at + 4],
        bytes[at + 5],
        bytes[at + 6],
        bytes[at + 7],
        bytes[at + 8],
        bytes[at + 9],
        bytes[at + 10],
        bytes[at + 11],
        bytes[at + 12],
        bytes[at + 13],
        bytes[at + 14],
        bytes[at + 15],
    ];
    proof {
        assert(v@ =~= bytes@.subrange(at as int, at + 16));
    }
    SseXmmRegisterValue { value: v }
}

/// Reads the saved instruction pointer at `at` in the shape of `mode`.
fn read_instruction_pointer(bytes: &[u8], at: usize, mode: FpuOperatingMode) -> (r:
    FloatingPointUnitInstructionPointerOffset)
    requires
        at + 8 <= bytes@.len(),
    ensures
        r == spec_parse_instruction_pointer(bytes@, at as int, mode),
{
    let n = bytes.len();
    assert(at + 8 <= n);
    match mode {
        FpuOperatingMode::Mode16Bit => FloatingPointUnitInstructionPointerOffset::Mode16Bit(
            FloatingPointUnitInstructionPointerOffset16Bit {
                instruction_pointer_offset: read_u16_le(bytes, at),
                instruction_pointer_selector: read_u16_le(bytes, at + 4),
            },
        ),
        FpuOperatingMode::Mode32Bit => FloatingPointUnitInstructionPointerOffset::Mode32Bit(
            FloatingPointUnitInstructionPointerOffset32Bit {
                instruction_pointer_offset: read_u32_le(bytes, at),
                instruction_pointer_selector: read_u16_le(bytes, at + 4),
            },
        ),
        FpuOperatingMode::Mode64BitWithoutRexW
            => FloatingPointUnitInstructionPointerOffset::Mode64BitWithoutRexW(
            FloatingPointUnitInstructionPointerOffset32Bit {
                instruction_pointer_offset: read_u32_le(bytes, at),
                instruction_pointer_selector: read_u16_le(bytes, at + 4),
            },
        ),
        FpuOperatingMode::Mode64BitWithRexW
            => FloatingPointUnitInstructionPointerOffset::Mode64BitWithRexW(
            FloatingPointUnitInstructionPointerOffset64BitWithRexW {
                instruction_pointer_offset: read_u64_le(bytes, at),
            },
        ),
    }
}

/// Reads the saved data pointer at `at` in the shape of `mode`.
fn read_data_pointer(bytes: &[u8], at: usize, mode: FpuOperatingMode) -> (r:
    FloatingPointUnitDataPointerOffset)
    requires
        at + 8 <= bytes@.len(),
    ensures
        r == spec_parse_data_pointer(bytes@, at as int, mode),
{
    let n = bytes.len();
    assert(at + 8 <= n);
    match mode {
        FpuOperatingMode::Mode16Bit => FloatingPointUnitDataPointerOffset::Mode16Bit(
            FloatingPointUnitDataPointerOffset16Bit {
                data_pointer_offset: read_u16_le(bytes, at),
                data_pointer_selector: read_u16_le(bytes, at + 4),
            },
        ),
        FpuOperatingMode::Mode32Bit => FloatingPointUnitDataPointerOffset::Mode32Bit(
            FloatingPointUnitDataPointerOffset32Bit {
                data_pointer_offset: read_u32_le(bytes, at),
                data_pointer_selector: read_u16_le(bytes, at + 4),
            },
        ),
        FpuOperatingMode::Mode64BitWithoutRexW
            => FloatingPointUnitDataPointerOffset::Mode64BitWithoutRexW(
            FloatingPointUnitDataPointerOffset32Bit {
                data_pointer_offset: read_u32_le(bytes, at),
                data_pointer_selector: read_u16_le(bytes, at + 4),
            },
        ),
        FpuOperatingMode::Mode64BitWithRexW
            => FloatingPointUnitDataPointerOffset::Mode64BitWithRexW(
            FloatingPointUnitDataPointerOffset64BitWithRexW {
                data_pointer_offset: read_u64_le(bytes, at),
            },
        ),
    }
}

impl FXSaveArea {
    /// Parses a legacy save image from its first 512 bytes, reading the
    /// mode-dependent pointer fields in the shape of `mode`.
    pub fn from_bytes(bytes: &[u8], mode: FpuOperatingMode) -> (r: FXSaveArea)
        requires
            bytes@.len() >= 512,
        ensures
            spec_is_parsed_fxsave(r, bytes@, mode),
    {
        let x87_state_part_1 = X87StatePart1 {
            fpu_control_word: X87FloatingPointUnitControlWord { value: read_u16_le(bytes, 0) },
            fpu_status_word: X87FloatingPointUnitStatusWord { value: read_u16_le(bytes, 2) },
            abridged_fpu_tag_word: AbridgedFpuTagWord { value: bytes[4] },
            fpu_opcode: FloatingPointUnitOpcode { value: read_u16_le(bytes, 6) },
            fpu_instruction_pointer_offset: read_instruction_pointer(bytes, 8, mode),
            fpu_data_pointer_offset: read_data_pointer(bytes, 16, mode),
        };
        let sse_state_part_1 = SseStatePart1 {
            mxcsr_register_value: MxcsrRegisterValue { value: read_u32_le(bytes, 24) },
            mxcsr_register_mask: read_u32_le(bytes, 28),
        };
        let x87_state_part_2 = X87StatePart2 {
            st0_or_mm0: read_register_value(bytes, 32),
            st1_or_mm1: read_register_value(bytes, 48),
            st2_or_mm2: read_register_value(bytes, 64),
            st3_or_mm3: read_register_value(bytes, 80),
            st4_or_mm4: read_register_value(bytes, 96),
            st5_or_mm5: read_register_value(bytes, 112),
            st6_or_mm6: read_register_value(bytes, 128),
            st7_or_mm7: read_register_value(bytes, 144),
        };
        let sse_state_part_2 = SseStatePart2 {
            xmm0: read_xmm_value(bytes, 160),
            xmm1: read_xmm_value(bytes, 176),
            xmm2: read_xmm_value(bytes, 192),
            xmm3: read_xmm_value(bytes, 208),
            xmm4: read_xmm_value(bytes, 224),
            xmm5: read_xmm_value(bytes, 240),
            xmm6: read_xmm_value(bytes, 256),
            xmm7: read_xmm_value(bytes, 272),
            xmm8: read_xmm_value(bytes, 288),
            xmm9: read_xmm_value(bytes, 304),
            xmm10: read_xmm_value(bytes, 320),
            xmm11: read_xmm_value(bytes, 336),
            xmm12: read_xmm_value(bytes, 352),
            xmm13: read_xmm_value(bytes, 368),
            xmm14: read_xmm_value(bytes, 384),
            xmm15: read_xmm_value(bytes, 400),
        };
        let r = FXSaveArea { x87_state_part_1, sse_state_part_1, x87_state_part_2, sse_state_part_2 };
        proof {
            assert forall|j: int|
                0 <= j < 8 implies (#[trigger] r.x87_state_part_2.spec_register(
                j,
            )).register_value@ == bytes@.subrange(32 + 16 * j, 42 + 16 * j) by {
            }
            assert forall|j: int|
                0 <= j < 16 implies (#[trigger] r.sse_state_part_2.spec_register(j)).value@
                == bytes@.subrange(160 + 16 * j, 176 + 16 * j) by {
            }
        }
        r
    }

    /// The two parts of the x87 state.
    pub fn x87_state(&self) -> (r: (&X87StatePart1, &X87StatePart2))
        ensures
            *r.0 == self.x87_state_part_1,
            *r.1 == self.x87_state_part_2,
    {
        (&self.x87_state_part_1, &self.x87_state_part_2)
    }

    /// The two parts of the SSE state.
    pub fn sse_state(&self) -> (r: (&SseStatePart1, &SseStatePart2))
        ensures
            *r.0 == self.sse_state_part_1,
            *r.1 == self.sse_state_part_2,
    {
        (&self.sse_state_part_1, &self.sse_state_part_2)
    }
}

} // verus!
