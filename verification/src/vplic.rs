//! The virtual controller instance: construction, the direct injection API,
//! and the two register-access handlers with the claim/complete protocol.
//!
//! The handlers never perform hardware effects themselves. They update the
//! virtual bookkeeping and return what remains to be done: whether to pass
//! the access through to the physical controller, and how to drive the
//! external interrupt line into the virtual CPU. The caller that owns the
//! hardware performs those effects.
//!
//! Lock-ordering note: the protocol touches the pending set before
//! the active set in claim and complete. With exclusive access this is the
//! order in which the two bit-sets are read and written here, so a
//! lock-based wrapper that takes its locks in program order acquires
//! pending before active and cannot deadlock.

use crate::bitset::any_set;
use crate::bitset::spec_first_set;
use crate::bitset::IrqBitmap;
use crate::consts::PLIC_CONTEXT_CLAIM_COMPLETE_OFFSET;
use crate::consts::PLIC_CONTEXT_CTRL_OFFSET;
use crate::consts::PLIC_CONTEXT_STRIDE;
use crate::consts::PLIC_NUM_SOURCES;
use crate::regmap::decode;
use crate::regmap::spec_decode;
use crate::regmap::AccessFault;
use crate::regmap::RegisterClass;
use vstd::prelude::*;

verus! {

/// Bit `i` of the 32-bit word `v`.
pub open spec fn u32_bit(v: u32, i: u32) -> bool {
    ((v >> i) & 1) == 1
}

/// Whether `id` names a source of `p` whose flag is set; false for ids
/// outside the capacity.
pub open spec fn source_pending(p: Seq<bool>, id: int) -> bool {
    0 <= id < p.len() && p[id]
}

/// The smallest window size that covers every register of a controller
/// with `contexts_num` contexts.
pub open spec fn min_window_span(contexts_num: int) -> int {
    contexts_num * PLIC_CONTEXT_STRIDE + PLIC_CONTEXT_CTRL_OFFSET
        + PLIC_CONTEXT_CLAIM_COMPLETE_OFFSET
}

/// Geometry fields (addresses, window size, context count) of `b` are those
/// of `a`: no register access ever changes them.
pub open spec fn same_geometry(a: VPlicGlobal, b: VPlicGlobal) -> bool {
    b.addr == a.addr && b.size == a.size && b.contexts_num == a.contexts_num
        && b.host_plic_addr == a.host_plic_addr
}

/// How to drive the external interrupt line into the owning virtual CPU
/// after a register write.
#[derive(Clone, Copy, Debug, PartialEq, Eq, Structural)]
pub enum SignalOp {
    /// Leave the line as it is.
    Keep,
    /// Raise the line: an interrupt is pending.
    Raise,
    /// Lower the line: no interrupt is pending.
    Lower,
}

/// What a register read yields.
#[derive(Clone, Copy, Debug, PartialEq, Eq, Structural)]
pub enum ReadOutcome {
    /// The virtualized value to return to the guest.
    Value(usize),
    /// Read the identical offset of the physical controller instead.
    PassThrough,
}

/// What remains to be done after a register write.
#[derive(Clone, Copy, Debug, PartialEq, Eq, Structural)]
pub struct WriteOutcome {
    /// How to drive the external interrupt line.
    pub signal: SignalOp,
    /// Whether to forward the same write to the identical offset of the
    /// physical controller.
    pub pass_through: bool,
}

/// One emulated controller instance for one guest.
pub struct VPlicGlobal {
    /// Base of the device window in the guest physical address space.
    pub addr: usize,
    /// Size of the device window in bytes.
    pub size: usize,
    /// Number of interrupt contexts (one per consumer, e.g. per hart).
    pub contexts_num: usize,
    /// Sources statically assigned to this instance (kept for routing,
    /// not yet read by the protocol).
    pub assigned_irqs: IrqBitmap,
    /// Sources that have fired and await a claim.
    pub pending_irqs: IrqBitmap,
    /// Sources claimed by a context and not yet completed.
    pub active_irqs: IrqBitmap,
    /// Base of the physical controller the pass-through classes forward
    /// to; the current design assumes it equals the guest base.
    pub host_plic_addr: usize,
}

impl VPlicGlobal {
    /// Well-formedness: each bit-set has one flag per source, and the
    /// reserved source 0 is never pending or active.
    pub open spec fn wf(self) -> bool {
        &&& self.assigned_irqs.wf()
        &&& self.pending_irqs.wf()
        &&& self.active_irqs.wf()
        &&& !self.pending_irqs@[0]
        &&& !self.active_irqs@[0]
    }

    /// The core protocol invariant: no source is pending and active at
    /// once. Construction establishes it and every operation preserves it
    /// unconditionally: the pending-raising paths hold off sources under
    /// service, as the hardware gateway does.
    pub open spec fn mutually_exclusive(self) -> bool {
        forall|i: int|
            0 <= i < self.pending_irqs@.len() ==> !(#[trigger] self.pending_irqs@[i]
                && self.active_irqs@[i])
    }

    /// Builds a controller at guest base `addr` with `contexts_num`
    /// contexts. Construction is rejected unless a window size is given
    /// and covers the computed minimum span. All three bit-sets start
    /// empty, and the physical base is recorded as the guest base (the
    /// current design has no remapping).
    pub fn new(addr: usize, size: Option<usize>, contexts_num: usize) -> (r: Option<VPlicGlobal>)
        ensures
            match r {
                Some(v) => {
                    &&& size is Some
                    &&& size.unwrap() > min_window_span(contexts_num as int)
                    &&& v.addr == addr
                    &&& v.size == size.unwrap()
                    &&& v.contexts_num == contexts_num
                    &&& v.host_plic_addr == addr
                    &&& v.wf()
                    &&& v.mutually_exclusive()
                    &&& forall|i: int|
                        0 <= i < PLIC_NUM_SOURCES ==> !(#[trigger] v.pending_irqs@[i])
                            && !v.active_irqs@[i] && !v.assigned_irqs@[i]
                },
                None => size is None || size.unwrap() <= min_window_span(contexts_num as int),
            },
    {
        let size = match size {
            Some(s) => s,
            None => {
                return None;
            },
        };
        let ctx_span = match contexts_num.checked_mul(PLIC_CONTEXT_STRIDE) {
            Some(m) => m,
            None => {
                return None;
            },
        };
        let span = match ctx_span.checked_add(
            PLIC_CONTEXT_CTRL_OFFSET + PLIC_CONTEXT_CLAIM_COMPLETE_OFFSET,
        ) {
            Some(s) => s,
            None => {
                return None;
            },
        };
        if size <= span {
            return None;
        }
        Some(
            VPlicGlobal {
                addr,
                size,
                contexts_num,
                assigned_irqs: IrqBitmap::new(),
                pending_irqs: IrqBitmap::new(),
                active_irqs: IrqBitmap::new(),
                host_plic_addr: addr,
            },
        )
    }

    /// The guest physical window of this device, as base and size.
    pub fn address_range(&self) -> (r: (usize, usize))
        ensures
            r.0 == self.addr,
            r.1 == self.size,
    {
        (self.addr, self.size)
    }

    /// Marks source `irq` pending (direct injection, outside guest MMIO).
    /// Returns true exactly when the source id is valid and was neither
    /// pending nor active: like the hardware gateway, a source being
    /// serviced is not raised again until it completes, so a source is
    /// never pending and active at once. Never touches the active or
    /// assigned sets.
    pub fn set_irq_pending(&mut self, irq: usize) -> (r: bool)
        requires
            old(self).wf(),
        ensures
            final(self).wf(),
            same_geometry(*old(self), *final(self)),
            final(self).assigned_irqs@ == old(self).assigned_irqs@,
            final(self).active_irqs@ == old(self).active_irqs@,
            (irq == 0 || irq >= PLIC_NUM_SOURCES || old(self).pending_irqs@[irq as int] || old(self).active_irqs@[irq as int]) ==> r == false && final(self).pending_irqs@ == old(self).pending_irqs@,
            (0 < irq < PLIC_NUM_SOURCES && !old(self).pending_irqs@[irq as int] && !old(self).active_irqs@[irq as int]) ==> r == true && final(self).pending_irqs@ == old(self).pending_irqs@.update(irq as int, true),
            old(self).mutually_exclusive() ==> final(self).mutually_exclusive(),
    {
        if irq == 0 || irq >= PLIC_NUM_SOURCES {
            return false;
        }
        if self.pending_irqs.get(irq) {
            return false;
        }
        if self.active_irqs.get(irq) {
            return false;
        }
        self.pending_irqs.set(irq, true);
        true
    }

    /// Clears source `irq` from the pending set (direct injection).
    /// Returns true exactly when the source id is valid and was pending.
    pub fn clear_irq_pending(&mut self, irq: usize) -> (r: bool)
        requires
            old(self).wf(),
        ensures
            final(self).wf(),
            same_geometry(*old(self), *final(self)),
            final(self).assigned_irqs@ == old(self).assigned_irqs@,
            final(self).active_irqs@ == old(self).active_irqs@,
            (irq == 0 || irq >= PLIC_NUM_SOURCES || !old(self).pending_irqs@[irq as int]) ==> r
                == false && final(self).pending_irqs@ == old(self).pending_irqs@,
            (0 < irq < PLIC_NUM_SOURCES && old(self).pending_irqs@[irq as int]) ==> r == true
                && final(self).pending_irqs@ == old(self).pending_irqs@.update(irq as int, false),
            old(self).mutually_exclusive() ==> final(self).mutually_exclusive(),
    {
        if irq == 0 || irq >= PLIC_NUM_SOURCES {
            return false;
        }
        if !self.pending_irqs.get(irq) {
            return false;
        }
        self.pending_irqs.set(irq, false);
        true
    }

    /// Whether any usable source (id 1 and up) is pending.
    pub fn has_pending_irqs(&self) -> (r: bool)
        requires
            self.wf(),
        ensures
            r == exists|i: int| 1 <= i < PLIC_NUM_SOURCES && self.pending_irqs@[i],
    {
        let mut i: usize = 1;
        while i < PLIC_NUM_SOURCES
            invariant
                self.wf(),
                1 <= i <= PLIC_NUM_SOURCES,
                forall|j: int| 1 <= j < i ==> !self.pending_irqs@[j],
            decreases PLIC_NUM_SOURCES - i,
        {
            if self.pending_irqs.get(i) {
                proof {
                    assert(self.pending_irqs@[i as int]);
                }
                return true;
            }
            i = i + 1;
        }
        false
    }

    /// Synthesizes the pending word `reg_index`: bit `i` is set exactly
    /// when source `reg_index * 32 + i` exists and is pending. A pure
    /// snapshot.
    fn read_pending_word(&self, reg_index: usize) -> (w: u32)
        requires
            self.wf(),
        ensures
            forall|i: u32|
                i < 32 ==> #[trigger] u32_bit(w, i) == source_pending(
                    self.pending_irqs@,
                    reg_index * 32 + i,
                ),
    {
        if reg_index >= PLIC_NUM_SOURCES {
            proof {
                assert(forall|i: u32| i < 32 ==> !u32_bit(0u32, i)) by (bit_vector);
            }
            return 0;
        }
        let start: usize = reg_index * 32;
        let mut w: u32 = 0;
        let mut i: usize = 0;
        proof {
            assert(forall|j: u32| j < 32 ==> !u32_bit(0u32, j)) by (bit_vector);
        }
        while i < 32
            invariant
                self.wf(),
                i <= 32,
                reg_index < PLIC_NUM_SOURCES,
                start == reg_index * 32,
                forall|j: u32|
                    j < i ==> #[trigger] u32_bit(w, j) == source_pending(
                        self.pending_irqs@,
                        reg_index * 32 + j,
                    ),
                forall|j: u32| i <= j < 32 ==> !(#[trigger] u32_bit(w, j)),
            decreases 32 - i,
        {
            let ghost w0 = w;
            let ghost iv: u32 = i as u32;
            let id = start + i;
            if id < PLIC_NUM_SOURCES && self.pending_irqs.get(id) {
                w = w | (1u32 << (i as u32));
                proof {
                    assert(forall|j: u32|
                        j < 32 && j != iv ==> #[trigger] u32_bit(w0 | (1u32 << iv), j) == u32_bit(
                            w0,
                            j,
                        )) by (bit_vector);
                    assert(u32_bit(w0 | (1u32 << iv), iv)) by (bit_vector)
                        requires
                            iv < 32,
                    ;
                }
            }
            i = i + 1;
        }
        w
    }

    /// Applies a guest write to pending word `reg_index`: every set bit of
    /// `val` whose source id is valid (nonzero, within capacity, and not
    /// currently active) is made pending. A source being serviced is held
    /// off, as the hardware gateway holds a new request until completion,
    /// so no source is ever pending and active at once. Append semantics:
    /// no bit of the pending set is ever cleared here.
    fn write_pending_word(&mut self, reg_index: usize, val: u32)
        requires
            old(self).wf(),
        ensures
            final(self).wf(),
            same_geometry(*old(self), *final(self)),
            final(self).assigned_irqs@ == old(self).assigned_irqs@,
            final(self).active_irqs@ == old(self).active_irqs@,
            forall|k: int|
                0 <= k < PLIC_NUM_SOURCES ==> (#[trigger] final(self).pending_irqs@[k]) == (old(self).pending_irqs@[k] || (k != 0 && reg_index * 32 <= k < reg_index * 32 + 32
                    && u32_bit(val, (k - reg_index * 32) as u32) && !old(self).active_irqs@[k])),
            old(self).mutually_exclusive() ==> final(self).mutually_exclusive(),
    {
        let ghost s0 = *self;
        if reg_index >= PLIC_NUM_SOURCES {
            return ;
        }
        let start: usize = reg_index * 32;
        let mut i: usize = 0;
        while i < 32
            invariant
                self.wf(),
                s0.wf(),
                i <= 32,
                reg_index < PLIC_NUM_SOURCES,
                start == reg_index * 32,
                same_geometry(s0, *self),
                self.assigned_irqs@ == s0.assigned_irqs@,
                self.active_irqs@ == s0.active_irqs@,
                forall|k: int|
                    0 <= k < PLIC_NUM_SOURCES ==> (#[trigger] self.pending_irqs@[k]) == (
                    s0.pending_irqs@[k] || (k != 0 && start <= k < start + i && u32_bit(
                        val,
                        (k - start) as u32,
                    ) && !s0.active_irqs@[k])),
            decreases 32 - i,
        {
            let ghost iv: u32 = i as u32;
            let ghost p_prev = self.pending_irqs@;
            proof {
                assert(u32_bit(val, iv) == ((val & (1u32 << iv)) != 0)) by (bit_vector)
                    requires
                        iv < 32,
                ;
            }
            let bit_is_set = (val & (1u32 << (i as u32))) != 0;
            let id = start + i;
            let raise = bit_is_set && id != 0 && id < PLIC_NUM_SOURCES && !self.active_irqs.get(
                id,
            );
            if raise {
                self.pending_irqs.set(id, true);
            }
            proof {
                assert forall|k: int| 0 <= k < PLIC_NUM_SOURCES implies (
                #[trigger] self.pending_irqs@[k]) == (s0.pending_irqs@[k] || (k != 0 && start <= k
                    < start + (i + 1) && u32_bit(val, (k - start) as u32) && !s0.active_irqs@[k]))
                    by {
                    if k == start + i {
                        assert((k - start) as u32 == iv);
                        if raise {
                            assert(self.pending_irqs@[k]);
                            assert(u32_bit(val, iv));
                            assert(!s0.active_irqs@[k]);
                        } else {
                            assert(self.pending_irqs@[k] == p_prev[k]);
                        }
                    } else {
                        assert(self.pending_irqs@[k] == p_prev[k]);
                    }
                }
            }
            i = i + 1;
        }
        proof {
            assert forall|k: int| 0 <= k < PLIC_NUM_SOURCES implies (
            #[trigger] self.pending_irqs@[k]) == (s0.pending_irqs@[k] || (k != 0 && reg_index * 32
                <= k < reg_index * 32 + 32 && u32_bit(val, (k - reg_index * 32) as u32)
                && !s0.active_irqs@[k])) by {
                assert(self.pending_irqs@[k] == (s0.pending_irqs@[k] || (k != 0 && start <= k
                    < start + 32 && u32_bit(val, (k - start) as u32) && !s0.active_irqs@[k])));
            }
            if s0.mutually_exclusive() {
                assert forall|k: int| 0 <= k < self.pending_irqs@.len() implies !(
                #[trigger] self.pending_irqs@[k] && self.active_irqs@[k]) by {
                    assert(!(s0.pending_irqs@[k] && s0.active_irqs@[k]));
                }
            }
        }
    }

    /// The claim operation: hands out the lowest pending source id, moving
    /// it from pending to active, or 0 (the "no interrupt" sentinel) when
    /// nothing is pending. The pending set is consulted before the active
    /// set is touched.
    fn claim_lowest(&mut self) -> (id: usize)
        requires
            old(self).wf(),
        ensures
            final(self).wf(),
            same_geometry(*old(self), *final(self)),
            final(self).assigned_irqs@ == old(self).assigned_irqs@,
            !any_set(old(self).pending_irqs@) ==> id == 0 && *final(self) == *old(self),
            any_set(old(self).pending_irqs@) ==> {
                &&& id == spec_first_set(old(self).pending_irqs@)
                &&& 0 < id < PLIC_NUM_SOURCES
                &&& final(self).pending_irqs@ == old(self).pending_irqs@.update(id as int, false)
                &&& final(self).active_irqs@ == old(self).active_irqs@.update(id as int, true)
            },
            old(self).mutually_exclusive() ==> final(self).mutually_exclusive(),
    {
        let ghost s0 = *self;
        let id_opt = self.pending_irqs.first_set();
        match id_opt {
            None => 0,
            Some(id) => {
                self.pending_irqs.set(id, false);
                self.active_irqs.set(id, true);
                proof {
                    assert(any_set(s0.pending_irqs@));
                    if s0.mutually_exclusive() {
                        assert forall|k: int| 0 <= k < self.pending_irqs@.len() implies !(
                        #[trigger] self.pending_irqs@[k] && self.active_irqs@[k]) by {
                            assert(!(s0.pending_irqs@[k] && s0.active_irqs@[k]));
                        }
                    }
                }
                id
            },
        }
    }

    /// Handles a guest read of `width` bytes at byte offset `offset`.
    /// Priority, enable and threshold registers are passed through;
    /// a pending word is synthesized from the virtual pending set; a
    /// claim/complete register performs the claim operation. Unknown
    /// offsets, wrong widths and out-of-range contexts are recoverable
    /// faults and change nothing.
    ///
    /// Known limitation, kept deliberately: a claim does not check that
    /// the claimed source is enabled for, or routed to, the context whose
    /// register was read.
    pub fn handle_read(&mut self, offset: usize, width: usize) -> (r: Result<
        ReadOutcome,
        AccessFault,
    >)
        requires
            old(self).wf(),
        ensures
            final(self).wf(),
            same_geometry(*old(self), *final(self)),
            final(self).assigned_irqs@ == old(self).assigned_irqs@,
            spec_decode(offset, width, old(self).contexts_num) matches Err(f) ==> r == Err::<
                ReadOutcome,
                AccessFault,
            >(f) && *final(self) == *old(self),
            spec_decode(offset, width, old(self).contexts_num) matches Ok(c) ==> (match c {
                RegisterClass::Pending { reg_index } => {
                    &&& *final(self) == *old(self)
                    &&& r matches Ok(ReadOutcome::Value(v)) && v <= u32::MAX && forall|i: u32|
                        i < 32 ==> #[trigger] u32_bit(v as u32, i) == source_pending(
                            old(self).pending_irqs@,
                            reg_index * 32 + i,
                        )
                },
                RegisterClass::ClaimComplete { context: _ } => {
                    if !any_set(old(self).pending_irqs@) {
                        r == Ok::<ReadOutcome, AccessFault>(ReadOutcome::Value(0)) && *final(self)
                            == *old(self)
                    } else {
                        let id = spec_first_set(old(self).pending_irqs@);
                        &&& r == Ok::<ReadOutcome, AccessFault>(ReadOutcome::Value(id as usize))
                        &&& 0 < id < PLIC_NUM_SOURCES
                        &&& final(self).pending_irqs@ == old(self).pending_irqs@.update(id, false)
                        &&& final(self).active_irqs@ == old(self).active_irqs@.update(id, true)
                    }
                },
                _ => r == Ok::<ReadOutcome, AccessFault>(ReadOutcome::PassThrough) && *final(self)
                    == *old(self),
            }),
            old(self).mutually_exclusive() ==> final(self).mutually_exclusive(),
    {
        let contexts_num = self.contexts_num;
        match decode(offset, width, contexts_num) {
            Err(f) => Err(f),
            Ok(RegisterClass::Priority { index: _ }) => Ok(ReadOutcome::PassThrough),
            Ok(RegisterClass::Enable) => Ok(ReadOutcome::PassThrough),
            Ok(RegisterClass::Threshold { context: _ }) => Ok(ReadOutcome::PassThrough),
            Ok(RegisterClass::Pending { reg_index }) => {
                let w = self.read_pending_word(reg_index);
                Ok(ReadOutcome::Value(w as usize))
            },
            Ok(RegisterClass::ClaimComplete { context: _ }) => {
                let id = self.claim_lowest();
                Ok(ReadOutcome::Value(id))
            },
        }
    }

    /// Handles a guest write of `width` bytes of `val` at byte offset
    /// `offset`. Priority, enable and threshold registers are passed
    /// through untouched. A pending-word write appends the written bits to
    /// the pending set — except bits of sources currently being serviced,
    /// which are held off as the hardware gateway holds a new request
    /// until completion — and asks for the external line to be raised when
    /// the pending set ends up non-empty. A claim/complete write completes
    /// source `val`: when the pending set is empty (consulted first) the
    /// external line is lowered, the source's active flag is cleared, and
    /// the write is also forwarded to the physical controller. Unknown
    /// offsets, wrong widths and out-of-range contexts are recoverable
    /// faults and change nothing.
    pub fn handle_write(&mut self, offset: usize, width: usize, val: usize) -> (r: Result<
        WriteOutcome,
        AccessFault,
    >)
        requires
            old(self).wf(),
        ensures
            final(self).wf(),
            same_geometry(*old(self), *final(self)),
            final(self).assigned_irqs@ == old(self).assigned_irqs@,
            spec_decode(offset, width, old(self).contexts_num) matches Err(f) ==> r == Err::<
                WriteOutcome,
                AccessFault,
            >(f) && *final(self) == *old(self),
            spec_decode(offset, width, old(self).contexts_num) matches Ok(c) ==> (match c {
                RegisterClass::Pending { reg_index } => {
                    &&& final(self).active_irqs@ == old(self).active_irqs@
                    &&& forall|k: int|
                        0 <= k < PLIC_NUM_SOURCES ==> final(self).pending_irqs@[k] == (old(self).pending_irqs@[k] || (k != 0 && reg_index * 32 <= k < reg_index * 32 + 32
                            && u32_bit(val as u32, (k - reg_index * 32) as u32) && !old(self).active_irqs@[k]))
                    &&& r == Ok::<WriteOutcome, AccessFault>(
                        (WriteOutcome {
                            signal: if any_set(final(self).pending_irqs@) {
                                SignalOp::Raise
                            } else {
                                SignalOp::Keep
                            },
                            pass_through: false,
                        }),
                    )
                },
                RegisterClass::ClaimComplete { context: _ } => {
                    &&& final(self).pending_irqs@ == old(self).pending_irqs@
                    &&& forall|k: int|
                        0 <= k < PLIC_NUM_SOURCES ==> final(self).active_irqs@[k] == (old(self).active_irqs@[k] && k != val)
                    &&& r == Ok::<WriteOutcome, AccessFault>(
                        (WriteOutcome {
                            signal: if any_set(old(self).pending_irqs@) {
                                SignalOp::Keep
                            } else {
                                SignalOp::Lower
                            },
                            pass_through: true,
                        }),
                    )
                },
                _ => r == Ok::<WriteOutcome, AccessFault>(
                    (WriteOutcome { signal: SignalOp::Keep, pass_through: true }),
                ) && *final(self) == *old(self),
            }),
            old(self).mutually_exclusive() ==> final(self).mutually_exclusive(),
    {
        let contexts_num = self.contexts_num;
        match decode(offset, width, contexts_num) {
            Err(f) => Err(f),
            Ok(RegisterClass::Priority { index: _ }) => Ok(
                WriteOutcome { signal: SignalOp::Keep, pass_through: true },
            ),
            Ok(RegisterClass::Enable) => Ok(
                WriteOutcome { signal: SignalOp::Keep, pass_through: true },
            ),
            Ok(RegisterClass::Threshold { context: _ }) => Ok(
                WriteOutcome { signal: SignalOp::Keep, pass_through: true },
            ),
            Ok(RegisterClass::Pending { reg_index }) => {
                let v32: u32 = #[verifier::truncate] (val as u32);
                self.write_pending_word(reg_index, v32);
                let signal = if self.pending_irqs.is_empty() {
                    SignalOp::Keep
                } else {
                    SignalOp::Raise
                };
                Ok(WriteOutcome { signal, pass_through: false })
            },
            Ok(RegisterClass::ClaimComplete { context: _ }) => {
                // The pending set is consulted before the active set is
                // touched, mirroring the protocol's lock order.
                let signal = if self.pending_irqs.is_empty() {
                    SignalOp::Lower
                } else {
                    SignalOp::Keep
                };
                if val < PLIC_NUM_SOURCES {
                    self.active_irqs.set(val, false);
                }
                Ok(WriteOutcome { signal, pass_through: true })
            },
        }
    }
}

} // verus!
