//! The register map decoder.
//!
//! A pure function from a byte offset and an access width within the
//! device's address window to a register class and its derived parameters,
//! or to a decode fault.

use crate::consts::PLIC_CONTEXT_CLAIM_COMPLETE_OFFSET;
use crate::consts::PLIC_CONTEXT_CTRL_OFFSET;
use crate::consts::PLIC_CONTEXT_STRIDE;
use crate::consts::PLIC_ENABLE_OFFSET;
use crate::consts::PLIC_PENDING_OFFSET;
use vstd::prelude::*;

verus! {

/// The register class a byte offset falls in, with its derived parameters.
#[derive(Clone, Copy, Debug, PartialEq, Eq, Structural)]
pub enum RegisterClass {
    /// A source's priority register (pass-through); `index` is offset / 4.
    Priority { index: usize },
    /// A 32-source-wide pending word (virtualized); bit `i` of the word
    /// stands for source `reg_index * 32 + i`.
    Pending { reg_index: usize },
    /// An enable register (pass-through).
    Enable,
    /// A context's threshold register (pass-through).
    Threshold { context: usize },
    /// A context's claim/complete register (virtualized).
    ClaimComplete { context: usize },
}

/// A recoverable decode fault, surfaced to the caller rather than ending
/// the emulator: the offset is guest-controlled.
#[derive(Clone, Copy, Debug, PartialEq, Eq, Structural)]
pub enum AccessFault {
    /// The access width is not the required 4 bytes.
    UnsupportedWidth,
    /// No register of the map lies at this offset.
    UnsupportedOffset,
    /// A claim/complete offset names a context beyond the configured count.
    InvalidContext,
}

/// The register class at byte offset `offset`, ignoring the access width
/// and the configured context count.
pub open spec fn spec_classify(offset: usize) -> Option<RegisterClass> {
    if offset < PLIC_PENDING_OFFSET {
        Some(RegisterClass::Priority { index: (offset / 4) as usize })
    } else if offset < PLIC_ENABLE_OFFSET {
        Some(RegisterClass::Pending { reg_index: ((offset - PLIC_PENDING_OFFSET) / 4) as usize })
    } else if offset < PLIC_CONTEXT_CTRL_OFFSET {
        Some(RegisterClass::Enable)
    } else if (offset - PLIC_CONTEXT_CTRL_OFFSET) % (PLIC_CONTEXT_STRIDE as int) == 0 {
        Some(
            RegisterClass::Threshold {
                context: ((offset - PLIC_CONTEXT_CTRL_OFFSET) / (PLIC_CONTEXT_STRIDE as int)) as usize,
            },
        )
    } else if offset >= PLIC_CONTEXT_CTRL_OFFSET + PLIC_CONTEXT_CLAIM_COMPLETE_OFFSET && (offset
        - PLIC_CONTEXT_CTRL_OFFSET - PLIC_CONTEXT_CLAIM_COMPLETE_OFFSET) % (PLIC_CONTEXT_STRIDE
        as int) == 0 {
        Some(
            RegisterClass::ClaimComplete {
                context: ((offset - PLIC_CONTEXT_CTRL_OFFSET - PLIC_CONTEXT_CLAIM_COMPLETE_OFFSET)
                    / (PLIC_CONTEXT_STRIDE as int)) as usize,
            },
        )
    } else {
        None
    }
}

/// What decoding an access of `width` bytes at `offset` yields on a
/// controller configured with `contexts_num` contexts.
pub open spec fn spec_decode(offset: usize, width: usize, contexts_num: usize) -> Result<
    RegisterClass,
    AccessFault,
> {
    if width != 4 {
        Err(AccessFault::UnsupportedWidth)
    } else {
        match spec_classify(offset) {
            Some(RegisterClass::ClaimComplete { context }) => if context < contexts_num {
                Ok(RegisterClass::ClaimComplete { context })
            } else {
                Err(AccessFault::InvalidContext)
            },
            Some(c) => Ok(c),
            None => Err(AccessFault::UnsupportedOffset),
        }
    }
}

/// Classifies an access of `width` bytes at byte offset `offset`. Every
/// register requires a 4-byte access; anything else is a fault, never a
/// silent truncation.
pub fn decode(offset: usize, width: usize, contexts_num: usize) -> (r: Result<
    RegisterClass,
    AccessFault,
>)
    ensures
        r == spec_decode(offset, width, contexts_num),
{
    if width != 4 {
        return Err(AccessFault::UnsupportedWidth);
    }
    if offset < PLIC_PENDING_OFFSET {
        Ok(RegisterClass::Priority { index: offset / 4 })
    } else if offset < PLIC_ENABLE_OFFSET {
        Ok(RegisterClass::Pending { reg_index: (offset - PLIC_PENDING_OFFSET) / 4 })
    } else if offset < PLIC_CONTEXT_CTRL_OFFSET {
        Ok(RegisterClass::Enable)
    } else if (offset - PLIC_CONTEXT_CTRL_OFFSET) % PLIC_CONTEXT_STRIDE == 0 {
        Ok(RegisterClass::Threshold { context: (offset - PLIC_CONTEXT_CTRL_OFFSET) / PLIC_CONTEXT_STRIDE })
    } else if offset >= PLIC_CONTEXT_CTRL_OFFSET + PLIC_CONTEXT_CLAIM_COMPLETE_OFFSET && (offset
        - PLIC_CONTEXT_CTRL_OFFSET - PLIC_CONTEXT_CLAIM_COMPLETE_OFFSET) % PLIC_CONTEXT_STRIDE
        == 0 {
        let context = (offset - PLIC_CONTEXT_CTRL_OFFSET - PLIC_CONTEXT_CLAIM_COMPLETE_OFFSET)
            / PLIC_CONTEXT_STRIDE;
        if context < contexts_num {
            Ok(RegisterClass::ClaimComplete { context })
        } else {
            Err(AccessFault::InvalidContext)
        }
    } else {
        Err(AccessFault::UnsupportedOffset)
    }
}

} // verus!
