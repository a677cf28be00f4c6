//! The processor's extended-state capability answers, decoded.
//!
//! The capability query for extended state answers over four 32-bit
//! registers per sub-leaf. Performing the query is the caller's affair;
//! this module turns the raw register values into decoded capability
//! information, bit-exactly.

use vstd::prelude::*;
use crate::bitops::bit32_is_set;
use crate::state_component_bitmaps::StateComponentBitmap;
use crate::state_components::{SupervisorStateComponent, UserStateComponent};

verus! {

/// The four registers one capability query returns.
#[derive(Debug, Clone, Copy, PartialEq, Eq, Structural)]
pub struct CpuidRegisters {
    /// The first result register.
    pub eax: u32,
    /// The second result register.
    pub ebx: u32,
    /// The third result register.
    pub ecx: u32,
    /// The fourth result register.
    pub edx: u32,
}

/// The extended-state capability of a processor, decoded from the two
/// sub-leaves of its extended-state capability leaf.
#[derive(Debug, Clone, Copy, PartialEq, Eq, Structural)]
pub struct ExtendedStateInformation {
    /// The components that can be enabled in the user feature-enable
    /// register.
    pub xsave_state_components_present: StateComponentBitmap,
    /// Largest save-area size, in bytes, over all components the processor
    /// supports.
    pub xsave_area_size_supported_features: usize,
    /// Save-area size, in bytes, the currently enabled user components
    /// need.
    pub xsave_area_size_enabled_features: usize,
    /// The components that can be enabled in the supervisor feature-enable
    /// register.
    pub xsaves_state_components_present: StateComponentBitmap,
    /// Save-area size, in bytes, that a supervisor save of the currently
    /// enabled components needs.
    pub xsaves_area_size_enabled_features: usize,
    /// The processor has the optimized save instruction.
    pub has_xsaveopt_feature: bool,
    /// The processor has the compaction extensions: the compacted format
    /// and the compacting save instruction.
    pub has_xsavec_feature: bool,
    /// The enable-register read instruction accepts the in-use request.
    pub xgetbv_supports_ecx_equals_one: bool,
    /// The processor has the supervisor save and restore instructions.
    pub has_xsaves_feature: bool,
}

impl ExtendedStateInformation {
    /// Decodes the capability information from the registers of sub-leaf 0
    /// and sub-leaf 1 of the extended-state capability leaf.
    pub fn new(sub_function_0: CpuidRegisters, sub_function_1: CpuidRegisters) -> (r:
        ExtendedStateInformation)
        ensures
            r.xsave_state_components_present.bits == ((sub_function_0.edx as u64) << 32) | (
            sub_function_0.eax as u64),
            r.xsave_area_size_supported_features == sub_function_0.ecx,
            r.xsave_area_size_enabled_features == sub_function_0.ebx,
            r.xsaves_state_components_present.bits == ((sub_function_1.edx as u64) << 32) | (
            sub_function_1.ecx as u64),
            r.xsaves_area_size_enabled_features == sub_function_1.ebx,
            r.has_xsaveopt_feature == bit32_is_set(sub_function_1.eax, 0),
            r.has_xsavec_feature == bit32_is_set(sub_function_1.eax, 1),
            r.xgetbv_supports_ecx_equals_one == bit32_is_set(sub_function_1.eax, 2),
            r.has_xsaves_feature == bit32_is_set(sub_function_1.eax, 3),
    {
        ExtendedStateInformation {
            xsave_state_components_present: StateComponentBitmap::new(
                ((sub_function_0.edx as u64) << 32) | (sub_function_0.eax as u64),
            ),
            xsave_area_size_supported_features: sub_function_0.ecx as usize,
            xsave_area_size_enabled_features: sub_function_0.ebx as usize,
            xsaves_state_components_present: StateComponentBitmap::new(
                ((sub_function_1.edx as u64) << 32) | (sub_function_1.ecx as u64),
            ),
            xsaves_area_size_enabled_features: sub_function_1.ebx as usize,
            has_xsaveopt_feature: sub_function_1.eax & (1u32 << 0) != 0,
            has_xsavec_feature: sub_function_1.eax & (1u32 << 1) != 0,
            xgetbv_supports_ecx_equals_one: sub_function_1.eax & (1u32 << 2) != 0,
            has_xsaves_feature: sub_function_1.eax & (1u32 << 3) != 0,
        }
    }

    /// A user state component can be enabled on this processor.
    pub fn user_state_component_possible(&self, user_state_component: UserStateComponent) -> (r:
        bool)
        ensures
            r == self.xsave_state_components_present.spec_contains(
                user_state_component.spec_bit(),
            ),
    {
        self.xsave_state_components_present.is_present(user_state_component.to_state_component())
    }

    /// A supervisor state component can be enabled on this processor.
    pub fn supervisor_state_component_possible(
        &self,
        supervisor_state_component: SupervisorStateComponent,
    ) -> (r: bool)
        ensures
            r == self.xsave_state_components_present.spec_contains(
                supervisor_state_component.spec_bit(),
            ),
    {
        self.xsave_state_components_present.is_present(
            supervisor_state_component.to_state_component(),
        )
    }

    /// Whether a capability leaf of the extended-function range is within
    /// what the processor answers for: `extended_function_info_eax` is the
    /// first result register of the extended-function information leaf, and
    /// an all-zero answer means the range is absent altogether.
    pub fn is_extended_functionality_type_supported(
        extended_function_info_eax: u32,
        eax_or_leaf: u32,
    ) -> (r: bool)
        ensures
            r == (extended_function_info_eax >= 0x8000_0000 && eax_or_leaf
                <= extended_function_info_eax - 0x8000_0000),
    {
        if extended_function_info_eax < 0x8000_0000 {
            false
        } else {
            eax_or_leaf <= extended_function_info_eax - 0x8000_0000
        }
    }
}

} // verus!
