use rk3568_boot::bsp::GICD_PHYS_BASE;
use rk3568_boot::gic::Gic;
use rk3568_boot::gic::GicOp;
use rk3568_boot::gic::GICD_CTLR_ARE;
use rk3568_boot::gic::GICD_CTLR_ENABLE_GRP1;
use rk3568_boot::gic::PMR_ACCEPT_ALL;
use rk3568_boot::gic::SPURIOUS_ID;

/// Replays a recorded operation trace the way a hardware harness
/// would, returning after each step whether the controller reads as
/// enabled: both the distributor group-1 bit and the per-core group-1
/// bit on.
fn replay_enabled_states(ops: &[GicOp]) -> Vec<bool> {
    let mut dist = false;
    let mut cpu = false;
    let mut states = vec![dist && cpu];
    for op in ops {
        match *op {
            GicOp::DistCtlr { value } => dist = value & GICD_CTLR_ENABLE_GRP1 != 0,
            GicOp::CpuGroupEnable { value } => cpu = value & 1 != 0,
            _ => {}
        }
        states.push(dist && cpu);
    }
    states
}

#[test]
fn reset_state_is_disabled() {
    let g = Gic::new(GICD_PHYS_BASE);
    assert_eq!(g.base_address, 0xFD40_0000);
    assert_eq!(g.gicd_ctlr, 0);
    assert_eq!(g.icc_igrpen1, 0);
    assert!(g.ops.is_empty());
    assert!(g.eoi_log.is_empty());
}

#[test]
fn distributor_half_alone_leaves_the_controller_disabled() {
    let mut g = Gic::new(GICD_PHYS_BASE);
    g.configure_distributor(56, 0x80);
    // Group forwarding and affinity routing are on in the distributor...
    assert_ne!(g.gicd_ctlr & GICD_CTLR_ENABLE_GRP1, 0);
    assert_ne!(g.gicd_ctlr & GICD_CTLR_ARE, 0);
    // ...but the per-core interface has not been written, so no
    // interrupt reaches the core yet.
    assert_eq!(g.icc_igrpen1, 0);
    assert!(!g.is_deliverable(56));
}

#[test]
fn configure_distributor_sets_enable_bit_and_priority() {
    let mut g = Gic::new(GICD_PHYS_BASE);
    g.configure_distributor(56, 0x80);
    // Interrupt 56 lives in set-enable word 1, bit 24.
    assert_eq!(g.isenabler[1], 1 << 24);
    assert_eq!(g.isenabler[0], 0);
    assert_eq!(g.ipriorityr[56], 0x80);
    assert_eq!(g.ipriorityr[55], 0);
}

#[test]
fn enable_order_is_distributor_then_core() {
    let mut g = Gic::new(GICD_PHYS_BASE);
    g.init(56, 0x80);
    assert_eq!(g.ops.len(), 8);

    // The distributor global-enable write must come before the
    // per-core group-enable write.
    let dist_pos = g
        .ops
        .iter()
        .position(|op| matches!(op, GicOp::DistCtlr { .. }))
        .unwrap();
    let cpu_pos = g
        .ops
        .iter()
        .position(|op| matches!(op, GicOp::CpuGroupEnable { .. }))
        .unwrap();
    assert!(dist_pos < cpu_pos);

    // Replaying the trace write by write, the observable "enabled"
    // state stays false until the group-enable write completes.
    let states = replay_enabled_states(&g.ops);
    for (n, enabled) in states.iter().enumerate() {
        assert_eq!(*enabled, n > cpu_pos, "after {} operations", n);
    }

    // Each half closes with its barrier.
    assert!(matches!(g.ops[3], GicOp::DataSyncBarrier));
    assert!(matches!(g.ops[7], GicOp::InstrSyncBarrier));
}

#[test]
fn init_opens_the_priority_mask_fully() {
    let mut g = Gic::new(GICD_PHYS_BASE);
    g.init(56, 0x80);
    assert_eq!(g.icc_pmr, PMR_ACCEPT_ALL);
    assert_eq!(g.icc_igrpen1, 1);
    assert!(g.is_deliverable(56));
}

#[test]
fn least_urgent_priority_never_passes_the_mask() {
    let mut g = Gic::new(GICD_PHYS_BASE);
    g.init(56, 0xFF);
    // Priority 0xFF is not more urgent than the fully open mask, so
    // the interrupt is configured but cannot reach the core.
    assert!(!g.is_deliverable(56));
    g.raise(56);
    assert_eq!(g.acknowledge(), SPURIOUS_ID);
}

#[test]
fn acknowledge_before_enable_reads_spurious() {
    let mut g = Gic::new(GICD_PHYS_BASE);
    g.raise(56);
    assert_eq!(g.acknowledge(), SPURIOUS_ID);
    // The interrupt stays pending: nothing acknowledged it.
    assert_eq!(g.pending, Some(56));
}

#[test]
fn acknowledge_returns_the_pending_identifier() {
    let mut g = Gic::new(GICD_PHYS_BASE);
    g.init(56, 0x80);
    g.raise(56);
    assert_eq!(g.acknowledge(), 56);
    assert_eq!(g.pending, None);
    assert_eq!(g.active, Some(56));
}

#[test]
fn end_of_interrupt_records_the_identifier() {
    let mut g = Gic::new(GICD_PHYS_BASE);
    g.init(56, 0x80);
    g.raise(56);
    let id = g.acknowledge();
    g.end_of_interrupt(id);
    assert_eq!(g.eoi_log, vec![56]);
    assert_eq!(g.active, None);
}

#[test]
fn an_unenabled_identifier_is_not_deliverable() {
    let mut g = Gic::new(GICD_PHYS_BASE);
    g.init(56, 0x80);
    g.raise(100);
    assert_eq!(g.acknowledge(), SPURIOUS_ID);
}
