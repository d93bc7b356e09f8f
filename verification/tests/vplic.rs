use riscv_vplic::{
    AccessFault, ReadOutcome, RegisterClass, SignalOp, VPlicGlobal, WriteOutcome,
    PLIC_NUM_SOURCES,
};

const BASE: usize = 0x0c00_0000;
const WINDOW: usize = 0x40_0000;
const PENDING_W0: usize = 0x1000;
const PENDING_W1: usize = 0x1004;
const CLAIM_CTX0: usize = 0x20_0004;
const CLAIM_CTX1: usize = 0x20_1004;

fn fresh(contexts: usize) -> VPlicGlobal {
    VPlicGlobal::new(BASE, Some(WINDOW), contexts).expect("geometry should be accepted")
}

#[test]
fn construction_rejects_small_window() {
    // Minimum span for 2 contexts: 2 * 0x1000 + 0x200000 + 4 = 0x202004.
    assert!(VPlicGlobal::new(BASE, Some(0x4000), 2).is_none());
    assert!(VPlicGlobal::new(BASE, Some(0x20_2004), 2).is_none());
    assert!(VPlicGlobal::new(BASE, Some(0x20_2005), 2).is_some());
    assert!(VPlicGlobal::new(BASE, None, 2).is_none());
}

#[test]
fn construction_initial_state() {
    let v = fresh(2);
    assert_eq!(v.address_range(), (BASE, WINDOW));
    assert_eq!(v.contexts_num, 2);
    assert_eq!(v.host_plic_addr, BASE);
    assert!(!v.has_pending_irqs());
    for id in 0..PLIC_NUM_SOURCES {
        assert!(!v.pending_irqs.get(id));
        assert!(!v.active_irqs.get(id));
        assert!(!v.assigned_irqs.get(id));
    }
}

#[test]
fn set_then_clear_pending_toggles_once() {
    let mut v = fresh(1);
    assert!(v.set_irq_pending(5));
    assert!(!v.set_irq_pending(5));
    assert!(v.pending_irqs.get(5));
    assert!(v.clear_irq_pending(5));
    assert!(!v.clear_irq_pending(5));
    assert!(!v.pending_irqs.get(5));
}

#[test]
fn injection_rejects_invalid_ids() {
    let mut v = fresh(1);
    assert!(!v.set_irq_pending(0));
    assert!(!v.set_irq_pending(PLIC_NUM_SOURCES));
    assert!(!v.clear_irq_pending(0));
    assert!(!v.clear_irq_pending(PLIC_NUM_SOURCES));
    assert!(!v.has_pending_irqs());
}

#[test]
fn injection_holds_off_active_source() {
    // A source being serviced is not raised again until it completes, so
    // no source is ever pending and active at once.
    let mut v = fresh(1);
    assert!(v.set_irq_pending(3));
    assert_eq!(v.handle_read(CLAIM_CTX0, 4), Ok(ReadOutcome::Value(3)));
    assert!(v.active_irqs.get(3));
    assert!(!v.set_irq_pending(3));
    assert!(!v.pending_irqs.get(3));
    // Completion releases the source; injection works again.
    assert!(v.handle_write(CLAIM_CTX0, 4, 3).is_ok());
    assert!(v.set_irq_pending(3));
    assert!(v.pending_irqs.get(3));
}

#[test]
fn pending_write_holds_off_active_source() {
    let mut v = fresh(1);
    assert!(v.set_irq_pending(3));
    assert_eq!(v.handle_read(CLAIM_CTX0, 4), Ok(ReadOutcome::Value(3)));
    // Writing the bit of the source under service adds nothing, and with
    // the pending set left empty the line stays as it is.
    assert_eq!(
        v.handle_write(PENDING_W0, 4, 1 << 3),
        Ok(WriteOutcome { signal: SignalOp::Keep, pass_through: false })
    );
    assert!(!v.pending_irqs.get(3));
    assert!(v.active_irqs.get(3));
    // After completion the same write takes effect and raises the line.
    assert!(v.handle_write(CLAIM_CTX0, 4, 3).is_ok());
    assert_eq!(
        v.handle_write(PENDING_W0, 4, 1 << 3),
        Ok(WriteOutcome { signal: SignalOp::Raise, pass_through: false })
    );
    assert!(v.pending_irqs.get(3));
}

#[test]
fn has_pending_tracks_usable_sources() {
    let mut v = fresh(1);
    assert!(!v.has_pending_irqs());
    assert!(v.set_irq_pending(PLIC_NUM_SOURCES - 1));
    assert!(v.has_pending_irqs());
    assert!(v.clear_irq_pending(PLIC_NUM_SOURCES - 1));
    assert!(!v.has_pending_irqs());
}

#[test]
fn claim_on_empty_returns_sentinel_and_mutates_nothing() {
    let mut v = fresh(1);
    assert_eq!(v.handle_read(CLAIM_CTX0, 4), Ok(ReadOutcome::Value(0)));
    assert!(!v.has_pending_irqs());
    for id in 0..PLIC_NUM_SOURCES {
        assert!(!v.pending_irqs.get(id));
        assert!(!v.active_irqs.get(id));
    }
}

#[test]
fn claim_hands_out_lowest_pending_id() {
    let mut v = fresh(1);
    assert!(v.set_irq_pending(3));
    assert!(v.set_irq_pending(5));
    assert_eq!(v.handle_read(CLAIM_CTX0, 4), Ok(ReadOutcome::Value(3)));
    assert!(!v.pending_irqs.get(3));
    assert!(v.pending_irqs.get(5));
    assert!(v.active_irqs.get(3));
    assert!(!v.active_irqs.get(5));
    assert_eq!(v.handle_read(CLAIM_CTX0, 4), Ok(ReadOutcome::Value(5)));
    assert!(v.active_irqs.get(5));
    assert_eq!(v.handle_read(CLAIM_CTX0, 4), Ok(ReadOutcome::Value(0)));
}

#[test]
fn claim_ignores_which_context_asks() {
    // Known limitation kept from the protocol: no check that the claimed
    // source is enabled for or routed to the asking context.
    let mut v = fresh(2);
    assert!(v.set_irq_pending(9));
    assert_eq!(v.handle_read(CLAIM_CTX1, 4), Ok(ReadOutcome::Value(9)));
    assert!(v.active_irqs.get(9));
}

#[test]
fn complete_clears_active_and_lowers_line_when_idle() {
    let mut v = fresh(1);
    assert!(v.set_irq_pending(3));
    assert_eq!(v.handle_read(CLAIM_CTX0, 4), Ok(ReadOutcome::Value(3)));
    // Pending is now empty, so completion also lowers the external line,
    // and the write is forwarded to the physical controller.
    assert_eq!(
        v.handle_write(CLAIM_CTX0, 4, 3),
        Ok(WriteOutcome { signal: SignalOp::Lower, pass_through: true })
    );
    assert!(!v.active_irqs.get(3));
}

#[test]
fn complete_keeps_line_while_sources_remain_pending() {
    let mut v = fresh(1);
    assert!(v.set_irq_pending(3));
    assert!(v.set_irq_pending(5));
    assert_eq!(v.handle_read(CLAIM_CTX0, 4), Ok(ReadOutcome::Value(3)));
    assert_eq!(
        v.handle_write(CLAIM_CTX0, 4, 3),
        Ok(WriteOutcome { signal: SignalOp::Keep, pass_through: true })
    );
    assert!(!v.active_irqs.get(3));
    assert!(v.pending_irqs.get(5));
}

#[test]
fn complete_with_out_of_range_source_changes_nothing() {
    let mut v = fresh(1);
    assert!(v.set_irq_pending(3));
    assert_eq!(
        v.handle_write(CLAIM_CTX0, 4, PLIC_NUM_SOURCES + 76),
        Ok(WriteOutcome { signal: SignalOp::Keep, pass_through: true })
    );
    assert!(v.pending_irqs.get(3));
}

#[test]
fn pending_write_appends_and_raises_line() {
    let mut v = fresh(1);
    assert!(v.set_irq_pending(7));
    // Source 1 lives in word 0 bit 1, source 33 in word 1 bit 1.
    assert_eq!(
        v.handle_write(PENDING_W0, 4, 1 << 1),
        Ok(WriteOutcome { signal: SignalOp::Raise, pass_through: false })
    );
    assert_eq!(
        v.handle_write(PENDING_W1, 4, 1 << 1),
        Ok(WriteOutcome { signal: SignalOp::Raise, pass_through: false })
    );
    assert!(v.pending_irqs.get(1));
    assert!(v.pending_irqs.get(33));
    assert!(v.pending_irqs.get(7));
}

#[test]
fn pending_write_never_sets_reserved_source_zero() {
    let mut v = fresh(1);
    // Bit 0 of word 0 names the reserved source 0: nothing becomes
    // pending, so the external line is left alone.
    assert_eq!(
        v.handle_write(PENDING_W0, 4, 1),
        Ok(WriteOutcome { signal: SignalOp::Keep, pass_through: false })
    );
    assert!(!v.pending_irqs.get(0));
    assert!(!v.has_pending_irqs());
}

#[test]
fn pending_write_of_zero_still_raises_when_sources_remain() {
    let mut v = fresh(1);
    assert!(v.set_irq_pending(5));
    // The line follows the state of the pending set after the write, even
    // when the written word adds nothing.
    assert_eq!(
        v.handle_write(PENDING_W0, 4, 0),
        Ok(WriteOutcome { signal: SignalOp::Raise, pass_through: false })
    );
    assert!(v.pending_irqs.get(5));
}

#[test]
fn pending_read_synthesizes_snapshot() {
    let mut v = fresh(1);
    assert!(v.set_irq_pending(1));
    assert!(v.set_irq_pending(33));
    assert!(v.set_irq_pending(40));
    assert_eq!(v.handle_read(PENDING_W0, 4), Ok(ReadOutcome::Value(1 << 1)));
    assert_eq!(
        v.handle_read(PENDING_W1, 4),
        Ok(ReadOutcome::Value((1 << 1) | (1 << 8)))
    );
    // A pure snapshot: nothing changed.
    assert!(v.pending_irqs.get(1));
    assert!(v.pending_irqs.get(33));
    assert!(v.pending_irqs.get(40));
}

#[test]
fn pass_through_round_trip_on_ideal_hardware() {
    // Idealized physical controller: a word-indexed register file. The
    // device leaves pass-through offsets to it, untouched by virtual
    // state, so a write followed by a read returns the written value.
    let mut v = fresh(1);
    let mut hw = vec![0usize; 0x20_1000 / 4 + 1];
    // One register of each pass-through class: priority of source 3,
    // first enable word, threshold of context 0.
    for &(offset, value) in &[(0xC_usize, 7_usize), (0x2000, 0xffff), (0x20_0000, 5)] {
        let w = v.handle_write(offset, 4, value).expect("decodes");
        assert_eq!(w, WriteOutcome { signal: SignalOp::Keep, pass_through: true });
        hw[offset / 4] = value;
        assert_eq!(v.handle_read(offset, 4), Ok(ReadOutcome::PassThrough));
        assert_eq!(hw[offset / 4], value);
    }
    assert!(!v.has_pending_irqs());
}

#[test]
fn decode_classifies_every_register_class() {
    assert_eq!(riscv_vplic::decode(0x0, 4, 1), Ok(RegisterClass::Priority { index: 0 }));
    assert_eq!(riscv_vplic::decode(0xC, 4, 1), Ok(RegisterClass::Priority { index: 3 }));
    assert_eq!(riscv_vplic::decode(0x1008, 4, 1), Ok(RegisterClass::Pending { reg_index: 2 }));
    assert_eq!(riscv_vplic::decode(0x2000, 4, 1), Ok(RegisterClass::Enable));
    assert_eq!(riscv_vplic::decode(0x20_0000, 4, 1), Ok(RegisterClass::Threshold { context: 0 }));
    assert_eq!(riscv_vplic::decode(0x20_1000, 4, 2), Ok(RegisterClass::Threshold { context: 1 }));
    assert_eq!(
        riscv_vplic::decode(CLAIM_CTX0, 4, 1),
        Ok(RegisterClass::ClaimComplete { context: 0 })
    );
    assert_eq!(
        riscv_vplic::decode(CLAIM_CTX1, 4, 2),
        Ok(RegisterClass::ClaimComplete { context: 1 })
    );
}

#[test]
fn decode_faults_are_reported_not_fatal() {
    // Wrong width, for every class.
    assert_eq!(riscv_vplic::decode(0x0, 2, 1), Err(AccessFault::UnsupportedWidth));
    assert_eq!(riscv_vplic::decode(CLAIM_CTX0, 8, 1), Err(AccessFault::UnsupportedWidth));
    // Offsets between registers.
    assert_eq!(riscv_vplic::decode(0x20_0001, 4, 1), Err(AccessFault::UnsupportedOffset));
    assert_eq!(riscv_vplic::decode(0x20_0008, 4, 1), Err(AccessFault::UnsupportedOffset));
    // A claim/complete offset beyond the configured context count.
    assert_eq!(riscv_vplic::decode(CLAIM_CTX1, 4, 1), Err(AccessFault::InvalidContext));
}

#[test]
fn faulting_accesses_leave_state_untouched() {
    let mut v = fresh(1);
    assert!(v.set_irq_pending(3));
    assert_eq!(v.handle_read(0x20_0001, 4), Err(AccessFault::UnsupportedOffset));
    assert_eq!(v.handle_write(0x20_0001, 4, 9), Err(AccessFault::UnsupportedOffset));
    assert_eq!(v.handle_read(PENDING_W0, 2), Err(AccessFault::UnsupportedWidth));
    assert_eq!(v.handle_write(CLAIM_CTX1, 4, 3), Err(AccessFault::InvalidContext));
    assert!(v.pending_irqs.get(3));
    assert!(!v.active_irqs.get(3));
}
