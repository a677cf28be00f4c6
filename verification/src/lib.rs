//! Model of the x86-64 extended processor state save area (the memory format
//! written by the `XSAVE` family of instructions and its legacy predecessor
//! `FXSAVE`), together with the layout decoder that locates every state
//! component inside such an area.
//!
//! The decoder is the core of the crate: given the save-area header (the
//! present-components bitmap and the compaction indicator) and a per-component
//! sizing table obtained from the processor's capability queries, it computes
//! the byte offset and size of every present extended component, under both
//! the uncompacted (fixed-offset) and the compacted (accumulated-offset)
//! encoding.
//!
//! Reading the processor itself (capability queries, the save and restore
//! instructions, control registers) is outside this crate; callers hand the
//! raw register values and saved bytes in, and get decoded values and offsets
//! back.

pub mod area;
pub mod bitops;
pub mod byte_codec;
pub mod errors;
pub mod extended_state_information;
pub mod fxsave;
pub mod fxsave_domain;
pub mod layout;
pub mod mxcsr;
pub mod sizing_table;
pub mod state_component_bitmaps;
pub mod state_components;
pub mod xsave_header;
