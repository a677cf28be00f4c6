//! The identities of the processor's extended state components.
//!
//! Each component occupies one bit index of the 64-bit state-component
//! bitmaps. Bits 0 and 1 are the legacy x87 and SSE components, bits 2
//! upward are the individually sized extended components, and bit 63 is
//! reserved for the compaction indicator: no component ever carries it.

use vstd::prelude::*;
use crate::sizing_table::SizingTable;

verus! {

/// A user state component whose size cannot be asked of the processor:
/// the two legacy components, which live at fixed places in the legacy
/// region of the save area.
#[derive(Debug, Clone, Copy, PartialEq, Eq, Structural)]
pub enum NotSizingQueryableUserStateComponent {
    /// The x87 floating-point unit execution environment (bit 0).
    X87,
    /// The streaming SIMD extension registers (bit 1).
    Sse,
}

/// A user state component whose size and offset the processor reports
/// through its capability queries.
#[derive(Debug, Clone, Copy, PartialEq, Eq, Structural)]
pub enum SizingQueryableUserStateComponent {
    /// The additional register state of the advanced vector extensions (bit 2).
    Avx,
    /// The four bounds registers of the memory-protection extensions (bit 3).
    BndRegsMpx,
    /// The configuration and status registers of the memory-protection
    /// extensions (bit 4).
    BndCsrMpx,
    /// The eight opmask registers of the 512-bit vector extensions (bit 5).
    OpmaskAvx512,
    /// The upper 256 bits of the first sixteen 512-bit vector registers (bit 6).
    ZmmHi256Avx512,
    /// The upper sixteen 512-bit vector registers (bit 7).
    Hi16ZmmAvx512,
    /// The protection-key rights register (bit 9).
    Pkru,
}

/// A supervisor (operating-system) state component.
#[derive(Debug, Clone, Copy, PartialEq, Eq, Structural)]
pub enum SupervisorStateComponent {
    /// The processor-trace configuration registers (bit 8).
    Pt,
    /// The hardware duty-cycling control register (bit 13).
    Hdc,
}

/// A user state component: one enabled through the user feature-enable
/// register.
#[derive(Debug, Clone, Copy, PartialEq, Eq, Structural)]
pub enum UserStateComponent {
    /// A legacy component without a capability-reported sizing.
    NotSizingQueryable(NotSizingQueryableUserStateComponent),
    /// An extended component with a capability-reported sizing.
    SizingQueryable(SizingQueryableUserStateComponent),
}

/// Any state component, user or supervisor.
///
/// Every component's bit index lies in `0..=62`; bit 63 is the compaction
/// indicator and is not constructible as a component.
#[derive(Debug, Clone, Copy, PartialEq, Eq, Structural)]
pub enum StateComponent {
    /// A component of the user register file.
    User(UserStateComponent),
    /// A component visible only to supervisor-mode code.
    Supervisor(SupervisorStateComponent),
}

/// Which feature-enable register governs a state component.
#[derive(Debug, Clone, Copy, PartialEq, Eq, Structural)]
pub enum SupportedIn {
    /// The user-mode extended control register.
    Xcr0,
    /// The supervisor-mode extended state model-specific register.
    Ia32Xss,
}

impl NotSizingQueryableUserStateComponent {
    /// The bit index of this component.
    pub open spec fn spec_bit(self) -> u64 {
        match self {
            NotSizingQueryableUserStateComponent::X87 => 0,
            NotSizingQueryableUserStateComponent::Sse => 1,
        }
    }

    /// The bit index of this component.
    pub fn bit(self) -> (r: u8)
        ensures
            r == self.spec_bit(),
    {
        match self {
            NotSizingQueryableUserStateComponent::X87 => 0,
            NotSizingQueryableUserStateComponent::Sse => 1,
        }
    }

    /// Wraps this component as a user state component.
    pub fn to_user_state_component(self) -> (r: UserStateComponent)
        ensures
            r == UserStateComponent::NotSizingQueryable(self),
    {
        UserStateComponent::NotSizingQueryable(self)
    }

    /// Wraps this component as a state component.
    pub fn to_state_component(self) -> (r: StateComponent)
        ensures
            r == StateComponent::User(UserStateComponent::NotSizingQueryable(self)),
    {
        StateComponent::User(UserStateComponent::NotSizingQueryable(self))
    }
}

impl SizingQueryableUserStateComponent {
    /// The bit index of this component.
    pub open spec fn spec_bit(self) -> u64 {
        match self {
            SizingQueryableUserStateComponent::Avx => 2,
            SizingQueryableUserStateComponent::BndRegsMpx => 3,
            SizingQueryableUserStateComponent::BndCsrMpx => 4,
            SizingQueryableUserStateComponent::OpmaskAvx512 => 5,
            SizingQueryableUserStateComponent::ZmmHi256Avx512 => 6,
            SizingQueryableUserStateComponent::Hi16ZmmAvx512 => 7,
            SizingQueryableUserStateComponent::Pkru => 9,
        }
    }

    /// The bit index of this component.
    pub fn bit(self) -> (r: u8)
        ensures
            r == self.spec_bit(),
    {
        match self {
            SizingQueryableUserStateComponent::Avx => 2,
            SizingQueryableUserStateComponent::BndRegsMpx => 3,
            SizingQueryableUserStateComponent::BndCsrMpx => 4,
            SizingQueryableUserStateComponent::OpmaskAvx512 => 5,
            SizingQueryableUserStateComponent::ZmmHi256Avx512 => 6,
            SizingQueryableUserStateComponent::Hi16ZmmAvx512 => 7,
            SizingQueryableUserStateComponent::Pkru => 9,
        }
    }

    /// Wraps this component as a user state component.
    pub fn to_user_state_component(self) -> (r: UserStateComponent)
        ensures
            r == UserStateComponent::SizingQueryable(self),
    {
        UserStateComponent::SizingQueryable(self)
    }

    /// Wraps this component as a state component.
    pub fn to_state_component(self) -> (r: StateComponent)
        ensures
            r == StateComponent::User(UserStateComponent::SizingQueryable(self)),
    {
        StateComponent::User(UserStateComponent::SizingQueryable(self))
    }

    /// This component's sizing, as the given table records it.
    pub fn sizing(self, table: &SizingTable) -> (r: Option<StateComponentSizing>)
        requires
            table.wf(),
        ensures
            r == table.spec_entry(self.spec_bit() as int),
    {
        table.get(self.bit())
    }
}

impl SupervisorStateComponent {
    /// The bit index of this component.
    pub open spec fn spec_bit(self) -> u64 {
        match self {
            SupervisorStateComponent::Pt => 8,
            SupervisorStateComponent::Hdc => 13,
        }
    }

    /// The bit index of this component.
    pub fn bit(self) -> (r: u8)
        ensures
            r == self.spec_bit(),
    {
        match self {
            SupervisorStateComponent::Pt => 8,
            SupervisorStateComponent::Hdc => 13,
        }
    }

    /// Wraps this component as a state component.
    pub fn to_state_component(self) -> (r: StateComponent)
        ensures
            r == StateComponent::Supervisor(self),
    {
        StateComponent::Supervisor(self)
    }

    /// This component's sizing, as the given table records it.
    pub fn sizing(self, table: &SizingTable) -> (r: Option<StateComponentSizing>)
        requires
            table.wf(),
        ensures
            r == table.spec_entry(self.spec_bit() as int),
    {
        table.get(self.bit())
    }
}

impl UserStateComponent {
    /// The bit index of this component.
    pub open spec fn spec_bit(self) -> u64 {
        match self {
            UserStateComponent::NotSizingQueryable(c) => c.spec_bit(),
            UserStateComponent::SizingQueryable(c) => c.spec_bit(),
        }
    }

    /// The bit index of this component.
    pub fn bit(self) -> (r: u8)
        ensures
            r == self.spec_bit(),
    {
        match self {
            UserStateComponent::NotSizingQueryable(c) => c.bit(),
            UserStateComponent::SizingQueryable(c) => c.bit(),
        }
    }

    /// Wraps this component as a state component.
    pub fn to_state_component(self) -> (r: StateComponent)
        ensures
            r == StateComponent::User(self),
    {
        StateComponent::User(self)
    }
}

impl StateComponent {
    /// The bit index of this component; always in `0..=62`.
    pub open spec fn spec_bit(self) -> u64 {
        match self {
            StateComponent::User(c) => c.spec_bit(),
            StateComponent::Supervisor(c) => c.spec_bit(),
        }
    }

    /// No component carries the compaction-indicator bit, and every bit
    /// index fits the 64-bit bitmaps.
    pub proof fn lemma_bit_range(self)
        ensures
            self.spec_bit() <= 62,
    {
    }

    /// The bit index of this component.
    pub fn bit(self) -> (r: u8)
        ensures
            r == self.spec_bit(),
            r <= 62,
    {
        match self {
            StateComponent::User(c) => c.bit(),
            StateComponent::Supervisor(c) => c.bit(),
        }
    }

    /// The legacy x87 component (bit 0).
    pub fn x87() -> (r: StateComponent)
        ensures
            r.spec_bit() == 0,
    {
        NotSizingQueryableUserStateComponent::X87.to_state_component()
    }

    /// The legacy SSE component (bit 1).
    pub fn sse() -> (r: StateComponent)
        ensures
            r.spec_bit() == 1,
    {
        NotSizingQueryableUserStateComponent::Sse.to_state_component()
    }

    /// The advanced-vector-extension component (bit 2).
    pub fn avx() -> (r: StateComponent)
        ensures
            r.spec_bit() == 2,
    {
        SizingQueryableUserStateComponent::Avx.to_state_component()
    }

    /// The bounds-register component of the memory-protection extensions (bit 3).
    pub fn bndregs_mpx() -> (r: StateComponent)
        ensures
            r.spec_bit() == 3,
    {
        SizingQueryableUserStateComponent::BndRegsMpx.to_state_component()
    }

    /// The configuration-and-status component of the memory-protection
    /// extensions (bit 4).
    pub fn bndcsr_mpx() -> (r: StateComponent)
        ensures
            r.spec_bit() == 4,
    {
        SizingQueryableUserStateComponent::BndCsrMpx.to_state_component()
    }

    /// The opmask component of the 512-bit vector extensions (bit 5).
    pub fn opmask_avx_512() -> (r: StateComponent)
        ensures
            r.spec_bit() == 5,
    {
        SizingQueryableUserStateComponent::OpmaskAvx512.to_state_component()
    }

    /// The upper-halves component of the first sixteen 512-bit vector
    /// registers (bit 6).
    pub fn zmm_hi256_avx_512() -> (r: StateComponent)
        ensures
            r.spec_bit() == 6,
    {
        SizingQueryableUserStateComponent::ZmmHi256Avx512.to_state_component()
    }

    /// The upper-sixteen-registers component of the 512-bit vector
    /// extensions (bit 7).
    pub fn hi16_zmm_avx_512() -> (r: StateComponent)
        ensures
            r.spec_bit() == 7,
    {
        SizingQueryableUserStateComponent::Hi16ZmmAvx512.to_state_component()
    }

    /// The protection-key component (bit 9).
    pub fn pkru() -> (r: StateComponent)
        ensures
            r.spec_bit() == 9,
    {
        SizingQueryableUserStateComponent::Pkru.to_state_component()
    }

    /// The processor-trace supervisor component (bit 8).
    pub fn pt() -> (r: StateComponent)
        ensures
            r.spec_bit() == 8,
    {
        SupervisorStateComponent::Pt.to_state_component()
    }

    /// The hardware duty-cycling supervisor component (bit 13).
    pub fn hdc() -> (r: StateComponent)
        ensures
            r.spec_bit() == 13,
    {
        SupervisorStateComponent::Hdc.to_state_component()
    }

    /// Builds a state component from a legacy user component.
    pub fn not_sizing_queryable_user_state_component(
        c: NotSizingQueryableUserStateComponent,
    ) -> (r: StateComponent)
        ensures
            r == StateComponent::User(UserStateComponent::NotSizingQueryable(c)),
    {
        c.to_state_component()
    }

    /// Builds a state component from a sized user component.
    pub fn sizing_queryable_user_state_component(
        c: SizingQueryableUserStateComponent,
    ) -> (r: StateComponent)
        ensures
            r == StateComponent::User(UserStateComponent::SizingQueryable(c)),
    {
        c.to_state_component()
    }

    /// Builds a state component from a supervisor component.
    pub fn sizing_queryable_supervisor_state_component(
        c: SupervisorStateComponent,
    ) -> (r: StateComponent)
        ensures
            r == StateComponent::Supervisor(c),
    {
        c.to_state_component()
    }

    /// Builds a state component from a user component.
    pub fn user_state_component(c: UserStateComponent) -> (r: StateComponent)
        ensures
            r == StateComponent::User(c),
    {
        c.to_state_component()
    }

    /// This component's sizing, as the given table records it: `None` for
    /// the legacy components, whose sizes are fixed and never tabulated.
    pub fn sizing(self, table: &SizingTable) -> (r: Option<StateComponentSizing>)
        requires
            table.wf(),
        ensures
            r == (if self.spec_bit() >= 2 {
                table.spec_entry(self.spec_bit() as int)
            } else {
                Option::<StateComponentSizing>::None
            }),
    {
        let bit = self.bit();
        if bit >= 2 {
            table.get(bit)
        } else {
            None
        }
    }
}

/// The capability-reported sizing of one extended state component
/// (a component with bit index in `2..=62`).
#[derive(Debug, Clone, Copy, PartialEq, Eq, Structural)]
pub struct StateComponentSizing {
    /// Byte offset of the component from the base of the save area when the
    /// extended region is not compacted.
    pub uncompacted_byte_offset: usize,
    /// Size of the component in bytes; never zero when obtained from a
    /// capability query.
    pub size: usize,
    /// The feature-enable register that governs the component.
    pub supported_in: SupportedIn,
    /// In the compacted format, whether the component must start on the next
    /// 64-byte boundary after the preceding component.
    pub requires_alignment_if_compacted: bool,
}

impl StateComponentSizing {
    /// Reads a component's sizing out of the registers that the capability
    /// query for its bit returns. An all-zero size register means the
    /// processor does not implement the component: that is absence, not an
    /// error.
    pub fn from_registers(eax: u32, ebx: u32, ecx: u32) -> (r: Option<StateComponentSizing>)
        ensures
            r is Some <==> eax != 0,
            eax != 0 ==> r == Some(
                StateComponentSizing {
                    uncompacted_byte_offset: ebx as usize,
                    size: eax as usize,
                    supported_in: if ecx & 1 == 1 {
                        SupportedIn::Ia32Xss
                    } else {
                        SupportedIn::Xcr0
                    },
                    requires_alignment_if_compacted: ecx & 2 == 2,
                },
            ),
    {
        if eax == 0 {
            return None;
        }
        Some(
            StateComponentSizing {
                uncompacted_byte_offset: ebx as usize,
                size: eax as usize,
                supported_in: if ecx & 1 == 1 {
                    SupportedIn::Ia32Xss
                } else {
                    SupportedIn::Xcr0
                },
                requires_alignment_if_compacted: ecx & 2 == 2,
            },
        )
    }
}

} // verus!
