//! Geometry constants of the PLIC 1.0.0 memory map.

use vstd::prelude::*;

verus! {

/// Number of interrupt source ids the controller manages. Id 0 is reserved
/// and is never pending or active; usable sources are 1 up to this bound.
pub const PLIC_NUM_SOURCES: usize = 1024;

/// Byte offset of the first priority register (4 bytes per source).
pub const PLIC_PRIORITY_OFFSET: usize = 0x0;

/// Byte offset of the first pending word (one bit per source, 32 per word).
pub const PLIC_PENDING_OFFSET: usize = 0x1000;

/// Byte offset of the first enable register.
pub const PLIC_ENABLE_OFFSET: usize = 0x2000;

/// Byte offset of the first per-context control block (threshold register).
pub const PLIC_CONTEXT_CTRL_OFFSET: usize = 0x200000;

/// Distance in bytes between the control blocks of two adjacent contexts.
pub const PLIC_CONTEXT_STRIDE: usize = 0x1000;

/// Offset of the claim/complete register within a context's control block.
pub const PLIC_CONTEXT_CLAIM_COMPLETE_OFFSET: usize = 0x4;

} // verus!
