//! A virtual platform-level interrupt controller (PLIC) core for RISC-V
//! hypervisors.
//!
//! The crate emulates the PLIC 1.0.0 memory map for a guest virtual machine.
//! Priority, enable and threshold registers are passed through to the
//! physical controller; the pending set and the per-context claim/complete
//! protocol are virtualized here, together with the external interrupt line
//! towards the virtual CPU.
//!
//! The library is pure logic: a register access arrives as an offset, a
//! width and (for writes) a value, and the result says what to reply to the
//! guest, whether to forward the access to the physical controller, and how
//! to drive the external interrupt line. The surrounding hypervisor performs
//! those effects.

pub mod bitset;
pub mod consts;
pub mod regmap;
pub mod vplic;

pub use bitset::IrqBitmap;
pub use consts::PLIC_CONTEXT_CLAIM_COMPLETE_OFFSET;
pub use consts::PLIC_CONTEXT_CTRL_OFFSET;
pub use consts::PLIC_CONTEXT_STRIDE;
pub use consts::PLIC_ENABLE_OFFSET;
pub use consts::PLIC_NUM_SOURCES;
pub use consts::PLIC_PENDING_OFFSET;
pub use consts::PLIC_PRIORITY_OFFSET;
pub use regmap::{decode, AccessFault, RegisterClass};
pub use vplic::{ReadOutcome, SignalOp, VPlicGlobal, WriteOutcome};
