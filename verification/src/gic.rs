//! Interrupt-controller driver: distributor and per-core interface.
//!
//! The driver works on a model of the controller's two halves. The
//! distributor routes and prioritizes interrupts system-wide: a control
//! register, a set-enable register bank (one bit per interrupt
//! identifier) and a priority byte per identifier. The per-core
//! interface gates which priorities this core accepts: a priority mask
//! and a group-1 enable register. Every configuration operation —
//! register writes and the barriers between them — is recorded in
//! `ops`, in program order, so the required ordering of the two enable
//! writes is observable, and provable, from the trace.

use vstd::prelude::*;

verus! {

/// Distributor control: forwarding of group-1 interrupts enabled.
pub const GICD_CTLR_ENABLE_GRP1: u32 = 0x02;
/// Distributor control: affinity routing enabled.
pub const GICD_CTLR_ARE: u32 = 0x10;

/// Number of interrupt identifiers the distributor serves.
pub const GIC_MAX_IRQS: u32 = 1024;
/// Number of 32-bit words in the set-enable register bank.
pub const GIC_ENABLE_WORDS: u32 = 32;

/// Priority mask value that accepts every priority below it — the least
/// restrictive setting.
pub const PMR_ACCEPT_ALL: u32 = 0xFF;

/// First of the reserved special identifiers (1020 to 1023): no real
/// interrupt bears one of these.
pub const GIC_FIRST_SPECIAL_ID: u32 = 1020;

/// Identifier the acknowledge register reports when no interrupt is
/// both pending and deliverable.
pub const SPURIOUS_ID: u32 = 1023;

/// One recorded configuration operation: a register write to either
/// half of the controller, or a barrier ordering them.
#[derive(Clone, Copy, PartialEq, Eq, Structural, Debug)]
pub enum GicOp {
    /// Distributor set-enable write for one interrupt identifier.
    DistSetEnable { id: u32 },
    /// Distributor priority byte write for one interrupt identifier.
    DistSetPriority { id: u32, priority: u8 },
    /// Distributor control register write.
    DistCtlr { value: u32 },
    /// Data synchronization barrier: all prior writes are visible
    /// before anything after it.
    DataSyncBarrier,
    /// Per-core priority mask register write.
    CpuPriorityMask { value: u32 },
    /// Instruction synchronization barrier.
    InstrSyncBarrier,
    /// Per-core group-1 enable register write.
    CpuGroupEnable { value: u32 },
}

/// The interrupt controller: distributor state, per-core interface
/// state, the interrupt currently asserted or being handled, and the
/// recorded traffic.
pub struct Gic {
    /// Physical base address of the distributor register file; fixed at
    /// construction from the board-support table.
    pub base_address: u64,
    /// Distributor control register contents.
    pub gicd_ctlr: u32,
    /// Set-enable register bank: bit `id % 32` of word `id / 32` is the
    /// enable bit of interrupt `id`.
    pub isenabler: Vec<u32>,
    /// Priority byte registers, one per interrupt identifier; lower is
    /// more urgent.
    pub ipriorityr: Vec<u8>,
    /// Per-core interface: priority mask register.
    pub icc_pmr: u32,
    /// Per-core interface: group-1 enable register.
    pub icc_igrpen1: u32,
    /// An interrupt the hardware has asserted and the core has not yet
    /// acknowledged.
    pub pending: Option<u32>,
    /// The interrupt acknowledged and currently being handled.
    pub active: Option<u32>,
    /// Identifiers written to the end-of-interrupt register, in order.
    pub eoi_log: Vec<u32>,
    /// Configuration operations issued, in program order.
    pub ops: Vec<GicOp>,
}

/// Whether bit `b` of word `w` is set.
pub open spec fn word_bit(w: u32, b: u32) -> bool {
    (w >> b) & 1 == 1
}

impl Gic {
    /// The register bank has its full size and any latched interrupt
    /// identifier is in range.
    pub open spec fn wf(&self) -> bool {
        &&& self.isenabler@.len() == GIC_ENABLE_WORDS
        &&& self.ipriorityr@.len() == GIC_MAX_IRQS
        &&& match self.pending {
            Some(p) => p < GIC_FIRST_SPECIAL_ID,
            None => true,
        }
        &&& match self.active {
            Some(a) => a < GIC_FIRST_SPECIAL_ID,
            None => true,
        }
    }

    /// Whether the distributor forwards group-1 interrupts.
    pub open spec fn dist_enabled(&self) -> bool {
        self.gicd_ctlr & GICD_CTLR_ENABLE_GRP1 != 0
    }

    /// Whether this core's interface accepts group-1 interrupts.
    pub open spec fn cpu_enabled(&self) -> bool {
        self.icc_igrpen1 & 1 != 0
    }

    /// The controller's observable "enabled" state: interrupts reach
    /// the core only when the distributor and the per-core interface
    /// are both enabled.
    pub open spec fn gic_enabled(&self) -> bool {
        self.dist_enabled() && self.cpu_enabled()
    }

    /// Whether interrupt `id` has its set-enable bit on.
    pub open spec fn id_enabled(&self, id: int) -> bool
        recommends
            0 <= id < GIC_MAX_IRQS,
            self.wf(),
    {
        word_bit(self.isenabler@[id / 32], (id % 32) as u32)
    }

    /// Whether an asserted interrupt `id` would reach the core: the
    /// controller is enabled, the identifier's enable bit is set, and
    /// its priority is more urgent than the priority mask.
    pub open spec fn deliverable(&self, id: int) -> bool
        recommends
            0 <= id < GIC_MAX_IRQS,
            self.wf(),
    {
        &&& self.gic_enabled()
        &&& self.id_enabled(id)
        &&& (self.ipriorityr@[id] as u32) < self.icc_pmr
    }
}

/// Bit `j` of a word after setting bit `i`: bit `i` reads back set, and
/// every other bit is unchanged.
proof fn lemma_set_bit_u32(w: u32, i: u32, j: u32)
    by (bit_vector)
    requires
        i < 32,
        j < 32,
    ensures
        ((w | (1u32 << i)) >> j) & 1 == if i == j { 1u32 } else { (w >> j) & 1 },
{
}

/// A zero word has no bit set.
proof fn lemma_zero_word_no_bits(j: u32)
    by (bit_vector)
    requires
        j < 32,
    ensures
        (0u32 >> j) & 1 == 0,
{
}

impl Gic {
    /// Creates a driver instance over the distributor register file at
    /// `base_address`, with the controller in its reset state: nothing
    /// enabled, every priority at its reset value, no interrupt pending.
    pub fn new(base_address: u64) -> (g: Gic)
        ensures
            g.wf(),
            g.base_address == base_address,
            g.gicd_ctlr == 0,
            !g.dist_enabled(),
            !g.cpu_enabled(),
            !g.gic_enabled(),
            forall|j: int| 0 <= j < GIC_MAX_IRQS ==> !g.id_enabled(j),
            forall|j: int| 0 <= j < GIC_MAX_IRQS ==> g.ipriorityr@[j] == 0,
            g.icc_pmr == 0,
            g.icc_igrpen1 == 0,
            g.pending is None,
            g.active is None,
            g.eoi_log@ == Seq::<u32>::empty(),
            g.ops@ == Seq::<GicOp>::empty(),
    {
        let mut isenabler: Vec<u32> = Vec::new();
        let mut w: usize = 0;
        while w < 32
            invariant
                w <= 32,
                isenabler@.len() == w,
                forall|k: int| 0 <= k < w ==> isenabler@[k] == 0,
            decreases 32 - w,
        {
            isenabler.push(0);
            w = w + 1;
        }
        let mut ipriorityr: Vec<u8> = Vec::new();
        let mut p: usize = 0;
        while p < 1024
            invariant
                p <= 1024,
                ipriorityr@.len() == p,
                forall|k: int| 0 <= k < p ==> ipriorityr@[k] == 0,
            decreases 1024 - p,
        {
            ipriorityr.push(0);
            p = p + 1;
        }
        let g = Gic {
            base_address,
            gicd_ctlr: 0,
            isenabler,
            ipriorityr,
            icc_pmr: 0,
            icc_igrpen1: 0,
            pending: None,
            active: None,
            eoi_log: Vec::new(),
            ops: Vec::new(),
        };
        proof {
            assert(0u32 & GICD_CTLR_ENABLE_GRP1 == 0) by (bit_vector);
            assert(0u32 & 1 == 0) by (bit_vector);
            assert forall|j: int| 0 <= j < GIC_MAX_IRQS implies !g.id_enabled(j) by {
                lemma_zero_word_no_bits((j % 32) as u32);
            }
        }
        g
    }

    /// Sets the enable bit of interrupt `id` in the set-enable bank:
    /// its bit reads back set and no other interrupt's bit changes.
    fn set_enable_bit(&mut self, id: u32)
        requires
            old(self).wf(),
            id < GIC_MAX_IRQS,
        ensures
            final(self).wf(),
            final(self).id_enabled(id as int),
            forall|j: int| 0 <= j < GIC_MAX_IRQS && j != id
                ==> final(self).id_enabled(j) == old(self).id_enabled(j),
            final(self).base_address == old(self).base_address,
            final(self).gicd_ctlr == old(self).gicd_ctlr,
            final(self).ipriorityr@ == old(self).ipriorityr@,
            final(self).icc_pmr == old(self).icc_pmr,
            final(self).icc_igrpen1 == old(self).icc_igrpen1,
            final(self).pending == old(self).pending,
            final(self).active == old(self).active,
            final(self).eoi_log@ == old(self).eoi_log@,
            final(self).ops@ == old(self).ops@.push(GicOp::DistSetEnable { id }),
    {
        let w: usize = (id / 32) as usize;
        let b: u32 = id % 32;
        let prior: u32 = self.isenabler[w];
        let updated: u32 = prior | (1u32 << b);
        self.isenabler.set(w, updated);
        self.ops.push(GicOp::DistSetEnable { id });
        proof {
            lemma_set_bit_u32(prior, b, b);
            assert(self.id_enabled(id as int));
            assert forall|j: int| 0 <= j < GIC_MAX_IRQS && j != id
                implies self.id_enabled(j) == old(self).id_enabled(j) by {
                let jb = (j % 32) as u32;
                if j / 32 == w {
                    vstd::arithmetic::div_mod::lemma_fundamental_div_mod(j, 32);
                    vstd::arithmetic::div_mod::lemma_fundamental_div_mod(id as int, 32);
                    assert(jb != b);
                    lemma_set_bit_u32(prior, b, jb);
                } else {
                    assert(self.isenabler@[j / 32] == old(self).isenabler@[j / 32]);
                }
            }
        }
    }

    /// Writes the priority byte of interrupt `id`; lower is more urgent.
    fn set_priority(&mut self, id: u32, priority: u8)
        requires
            old(self).wf(),
            id < GIC_MAX_IRQS,
        ensures
            final(self).wf(),
            final(self).ipriorityr@ == old(self).ipriorityr@.update(id as int, priority),
            final(self).base_address == old(self).base_address,
            final(self).gicd_ctlr == old(self).gicd_ctlr,
            final(self).isenabler@ == old(self).isenabler@,
            final(self).icc_pmr == old(self).icc_pmr,
            final(self).icc_igrpen1 == old(self).icc_igrpen1,
            final(self).pending == old(self).pending,
            final(self).active == old(self).active,
            final(self).eoi_log@ == old(self).eoi_log@,
            final(self).ops@ == old(self).ops@.push(GicOp::DistSetPriority { id, priority }),
    {
        self.ipriorityr.set(id as usize, priority);
        self.ops.push(GicOp::DistSetPriority { id, priority });
    }

    /// Configures the distributor for one interrupt: sets its enable
    /// bit, writes its priority byte, then enables group-1 forwarding
    /// and affinity routing in the control register, and closes with a
    /// data synchronization barrier so the writes are visible before
    /// any interrupt can assert. The per-core interface is untouched:
    /// the controller stays observably disabled if it was disabled.
    pub fn configure_distributor(&mut self, irq_id: u32, priority: u8)
        requires
            old(self).wf(),
            irq_id < GIC_MAX_IRQS,
        ensures
            final(self).wf(),
            final(self).id_enabled(irq_id as int),
            forall|j: int| 0 <= j < GIC_MAX_IRQS && j != irq_id
                ==> final(self).id_enabled(j) == old(self).id_enabled(j),
            final(self).ipriorityr@ == old(self).ipriorityr@.update(irq_id as int, priority),
            final(self).gicd_ctlr == old(self).gicd_ctlr | GICD_CTLR_ENABLE_GRP1 | GICD_CTLR_ARE,
            final(self).dist_enabled(),
            final(self).base_address == old(self).base_address,
            final(self).icc_pmr == old(self).icc_pmr,
            final(self).icc_igrpen1 == old(self).icc_igrpen1,
            final(self).cpu_enabled() == old(self).cpu_enabled(),
            final(self).gic_enabled() == old(self).cpu_enabled(),
            final(self).pending == old(self).pending,
            final(self).active == old(self).active,
            final(self).eoi_log@ == old(self).eoi_log@,
            final(self).ops@ == old(self).ops@
                + distributor_ops(irq_id, priority, old(self).gicd_ctlr),
    {
        self.set_enable_bit(irq_id);
        self.set_priority(irq_id, priority);
        let prior: u32 = self.gicd_ctlr;
        let ctlr: u32 = prior | GICD_CTLR_ENABLE_GRP1 | GICD_CTLR_ARE;
        assert(ctlr & GICD_CTLR_ENABLE_GRP1 != 0) by (bit_vector)
            requires ctlr == prior | GICD_CTLR_ENABLE_GRP1 | GICD_CTLR_ARE;
        self.gicd_ctlr = ctlr;
        self.ops.push(GicOp::DistCtlr { value: ctlr });
        self.ops.push(GicOp::DataSyncBarrier);
        proof {
            assert(self.ops@ =~= old(self).ops@
                + distributor_ops(irq_id, priority, old(self).gicd_ctlr));
        }
    }

    /// Configures this core's interface: opens the priority mask to the
    /// least restrictive value, then sets the group-1 enable bit, each
    /// write followed by an instruction synchronization barrier. The
    /// distributor must already be enabled — enabling the interface
    /// first would reorder the handshake and silently drop interrupts.
    pub fn enable_cpu_interface(&mut self)
        requires
            old(self).wf(),
            old(self).dist_enabled(),
        ensures
            final(self).wf(),
            final(self).icc_pmr == PMR_ACCEPT_ALL,
            final(self).icc_igrpen1 == 1,
            final(self).cpu_enabled(),
            final(self).gic_enabled(),
            final(self).base_address == old(self).base_address,
            final(self).gicd_ctlr == old(self).gicd_ctlr,
            final(self).isenabler@ == old(self).isenabler@,
            final(self).ipriorityr@ == old(self).ipriorityr@,
            final(self).pending == old(self).pending,
            final(self).active == old(self).active,
            final(self).eoi_log@ == old(self).eoi_log@,
            final(self).ops@ == old(self).ops@ + cpu_interface_ops(),
    {
        self.icc_pmr = PMR_ACCEPT_ALL;
        self.ops.push(GicOp::CpuPriorityMask { value: PMR_ACCEPT_ALL });
        self.ops.push(GicOp::InstrSyncBarrier);
        self.icc_igrpen1 = 1;
        self.ops.push(GicOp::CpuGroupEnable { value: 1 });
        self.ops.push(GicOp::InstrSyncBarrier);
        proof {
            assert(1u32 & 1 != 0) by (bit_vector);
            assert(self.ops@ =~= old(self).ops@ + cpu_interface_ops());
        }
    }

    /// Brings the controller up for one interrupt: distributor first,
    /// then the per-core interface, in that order. Afterwards the
    /// controller is observably enabled and, if the priority is more
    /// urgent than the fully open mask, the interrupt can reach the
    /// core.
    pub fn init(&mut self, irq_id: u32, priority: u8)
        requires
            old(self).wf(),
            irq_id < GIC_MAX_IRQS,
        ensures
            final(self).wf(),
            final(self).gic_enabled(),
            final(self).id_enabled(irq_id as int),
            forall|j: int| 0 <= j < GIC_MAX_IRQS && j != irq_id
                ==> final(self).id_enabled(j) == old(self).id_enabled(j),
            final(self).ipriorityr@ == old(self).ipriorityr@.update(irq_id as int, priority),
            final(self).gicd_ctlr == old(self).gicd_ctlr | GICD_CTLR_ENABLE_GRP1 | GICD_CTLR_ARE,
            final(self).icc_pmr == PMR_ACCEPT_ALL,
            final(self).icc_igrpen1 == 1,
            (priority as u32) < PMR_ACCEPT_ALL ==> final(self).deliverable(irq_id as int),
            final(self).base_address == old(self).base_address,
            final(self).pending == old(self).pending,
            final(self).active == old(self).active,
            final(self).eoi_log@ == old(self).eoi_log@,
            final(self).ops@ == old(self).ops@
                + distributor_ops(irq_id, priority, old(self).gicd_ctlr)
                + cpu_interface_ops(),
    {
        self.configure_distributor(irq_id, priority);
        self.enable_cpu_interface();
    }

    /// Models the hardware asserting interrupt `id` toward the core.
    /// The special identifiers are reserved for the acknowledge
    /// register's own reports and are never asserted.
    pub fn raise(&mut self, id: u32)
        requires
            old(self).wf(),
            id < GIC_FIRST_SPECIAL_ID,
        ensures
            final(self).wf(),
            final(self).pending == Some(id),
            final(self).base_address == old(self).base_address,
            final(self).gicd_ctlr == old(self).gicd_ctlr,
            final(self).isenabler@ == old(self).isenabler@,
            final(self).ipriorityr@ == old(self).ipriorityr@,
            final(self).icc_pmr == old(self).icc_pmr,
            final(self).icc_igrpen1 == old(self).icc_igrpen1,
            final(self).active == old(self).active,
            final(self).eoi_log@ == old(self).eoi_log@,
            final(self).ops@ == old(self).ops@,
    {
        self.pending = Some(id);
    }

    /// Whether an asserted interrupt `id` would reach the core right
    /// now.
    pub fn is_deliverable(&self, id: u32) -> (r: bool)
        requires
            self.wf(),
            id < GIC_MAX_IRQS,
        ensures
            r == self.deliverable(id as int),
    {
        let dist = self.gicd_ctlr & GICD_CTLR_ENABLE_GRP1 != 0;
        let cpu = self.icc_igrpen1 & 1 != 0;
        let bit = (self.isenabler[(id / 32) as usize] >> (id % 32)) & 1 == 1;
        let prio = (self.ipriorityr[id as usize] as u32) < self.icc_pmr;
        dist && cpu && bit && prio
    }

    /// Reads the acknowledge register: if an interrupt is pending and
    /// deliverable, returns its identifier and implicitly marks it
    /// active; otherwise reports the spurious identifier and changes
    /// nothing.
    pub fn acknowledge(&mut self) -> (id: u32)
        requires
            old(self).wf(),
        ensures
            final(self).wf(),
            final(self).base_address == old(self).base_address,
            final(self).gicd_ctlr == old(self).gicd_ctlr,
            final(self).isenabler@ == old(self).isenabler@,
            final(self).ipriorityr@ == old(self).ipriorityr@,
            final(self).icc_pmr == old(self).icc_pmr,
            final(self).icc_igrpen1 == old(self).icc_igrpen1,
            final(self).eoi_log@ == old(self).eoi_log@,
            final(self).ops@ == old(self).ops@,
            match old(self).pending {
                Some(p) => {
                    if old(self).deliverable(p as int) {
                        &&& id == p
                        &&& final(self).pending is None
                        &&& final(self).active == Some(p)
                    } else {
                        &&& id == SPURIOUS_ID
                        &&& final(self).pending == old(self).pending
                        &&& final(self).active == old(self).active
                    }
                },
                None => {
                    &&& id == SPURIOUS_ID
                    &&& final(self).pending == old(self).pending
                    &&& final(self).active == old(self).active
                },
            },
    {
        match self.pending {
            Some(p) => {
                if self.is_deliverable(p) {
                    self.pending = None;
                    self.active = Some(p);
                    p
                } else {
                    SPURIOUS_ID
                }
            },
            None => SPURIOUS_ID,
        }
    }

    /// Writes the end-of-interrupt register: the identifier is recorded
    /// on the wire and, if it was the active interrupt, it becomes
    /// inactive and eligible to assert again.
    pub fn end_of_interrupt(&mut self, id: u32)
        requires
            old(self).wf(),
        ensures
            final(self).wf(),
            final(self).eoi_log@ == old(self).eoi_log@.push(id),
            final(self).active == if old(self).active == Some(id) {
                None::<u32>
            } else {
                old(self).active
            },
            final(self).base_address == old(self).base_address,
            final(self).gicd_ctlr == old(self).gicd_ctlr,
            final(self).isenabler@ == old(self).isenabler@,
            final(self).ipriorityr@ == old(self).ipriorityr@,
            final(self).icc_pmr == old(self).icc_pmr,
            final(self).icc_igrpen1 == old(self).icc_igrpen1,
            final(self).pending == old(self).pending,
            final(self).ops@ == old(self).ops@,
    {
        self.eoi_log.push(id);
        match self.active {
            Some(a) => {
                if a == id {
                    self.active = None;
                }
            },
            None => {},
        }
    }
}

/// The exact operation sequence `configure_distributor` issues, given
/// the control register's prior contents.
pub open spec fn distributor_ops(irq_id: u32, priority: u8, prior_ctlr: u32) -> Seq<GicOp> {
    seq![
        GicOp::DistSetEnable { id: irq_id },
        GicOp::DistSetPriority { id: irq_id, priority },
        GicOp::DistCtlr { value: prior_ctlr | GICD_CTLR_ENABLE_GRP1 | GICD_CTLR_ARE },
        GicOp::DataSyncBarrier,
    ]
}

/// The exact operation sequence `enable_cpu_interface` issues.
pub open spec fn cpu_interface_ops() -> Seq<GicOp> {
    seq![
        GicOp::CpuPriorityMask { value: PMR_ACCEPT_ALL },
        GicOp::InstrSyncBarrier,
        GicOp::CpuGroupEnable { value: 1 },
        GicOp::InstrSyncBarrier,
    ]
}

/// The two enable bits a harness replaying a recorded operation trace
/// would observe.
pub struct EnableFlags {
    /// Distributor group-1 forwarding enabled.
    pub dist_grp1: bool,
    /// Per-core group-1 acceptance enabled.
    pub cpu_grp1: bool,
}

/// Both halves disabled: the state before any configuration write.
pub open spec fn reset_flags() -> EnableFlags {
    EnableFlags { dist_grp1: false, cpu_grp1: false }
}

/// How one recorded operation moves the two enable bits.
pub open spec fn apply_op(f: EnableFlags, op: GicOp) -> EnableFlags {
    match op {
        GicOp::DistCtlr { value } => EnableFlags {
            dist_grp1: value & GICD_CTLR_ENABLE_GRP1 != 0,
            cpu_grp1: f.cpu_grp1,
        },
        GicOp::CpuGroupEnable { value } => EnableFlags {
            dist_grp1: f.dist_grp1,
            cpu_grp1: value & 1 != 0,
        },
        _ => f,
    }
}

/// The enable bits after replaying the first `n` operations of a trace
/// that began at reset.
pub open spec fn replay_flags(ops: Seq<GicOp>, n: int) -> EnableFlags
    decreases n,
{
    if n <= 0 {
        reset_flags()
    } else {
        apply_op(replay_flags(ops, n - 1), ops[n - 1])
    }
}

/// Whether a harness replaying the first `n` operations observes the
/// controller enabled: both halves must have been switched on.
pub open spec fn replay_enabled(ops: Seq<GicOp>, n: int) -> bool {
    replay_flags(ops, n).dist_grp1 && replay_flags(ops, n).cpu_grp1
}

/// As long as no group-enable write has been replayed, the per-core
/// half — and so the controller as a whole — is observably disabled.
pub proof fn lemma_disabled_without_group_write(ops: Seq<GicOp>, n: int)
    requires
        0 <= n <= ops.len(),
        forall|k: int| 0 <= k < n ==> !(#[trigger] ops[k] is CpuGroupEnable),
    ensures
        !replay_flags(ops, n).cpu_grp1,
        !replay_enabled(ops, n),
    decreases n,
{
    if n > 0 {
        lemma_disabled_without_group_write(ops, n - 1);
    }
}

/// The initialization handshake in order: replaying the trace that
/// `configure_distributor` followed by `enable_cpu_interface` records,
/// the observable "enabled" state is false after every prefix up to and
/// including the distributor half and its barriers, the distributor
/// global-enable write (position 2) comes before the per-core
/// group-enable write (position 6), and only once that later write has
/// completed does the controller read as enabled. A harness that
/// reordered the halves would see the group-enable write land while the
/// distributor bit was still clear.
pub proof fn lemma_enable_handshake_order(irq_id: u32, priority: u8, prior_ctlr: u32)
    ensures
        ({
            let ops = distributor_ops(irq_id, priority, prior_ctlr) + cpu_interface_ops();
            &&& ops.len() == 8
            &&& ops[2] is DistCtlr
            &&& ops[6] is CpuGroupEnable
            &&& forall|n: int| 0 <= n <= 6 ==> !replay_enabled(ops, n)
            &&& replay_enabled(ops, 7)
            &&& replay_enabled(ops, 8)
        }),
{
    let dist = distributor_ops(irq_id, priority, prior_ctlr);
    let cpu = cpu_interface_ops();
    let ops = dist + cpu;
    assert(ops.len() == 8);
    assert(ops[0] == dist[0]);
    assert(ops[1] == dist[1]);
    assert(ops[2] == dist[2]);
    assert(ops[3] == dist[3]);
    assert(ops[4] == cpu[0]);
    assert(ops[5] == cpu[1]);
    assert(ops[6] == cpu[2]);
    assert(ops[7] == cpu[3]);

    assert forall|n: int| 0 <= n <= 6 implies !replay_enabled(ops, n) by {
        assert forall|k: int| 0 <= k < n implies !(#[trigger] ops[k] is CpuGroupEnable) by {
            assert(!(ops[0] is CpuGroupEnable));
            assert(!(ops[1] is CpuGroupEnable));
            assert(!(ops[2] is CpuGroupEnable));
            assert(!(ops[3] is CpuGroupEnable));
            assert(!(ops[4] is CpuGroupEnable));
            assert(!(ops[5] is CpuGroupEnable));
        }
        lemma_disabled_without_group_write(ops, n);
    }

    let ctlr = prior_ctlr | GICD_CTLR_ENABLE_GRP1 | GICD_CTLR_ARE;
    assert(ctlr & GICD_CTLR_ENABLE_GRP1 != 0) by (bit_vector)
        requires ctlr == prior_ctlr | GICD_CTLR_ENABLE_GRP1 | GICD_CTLR_ARE;
    assert(1u32 & 1 != 0) by (bit_vector);

    // Walk the replay forward once: the distributor bit rises at the
    // control-register write and survives to the end; the per-core bit
    // rises at the group-enable write.
    assert(replay_flags(ops, 3).dist_grp1);
    assert(replay_flags(ops, 4).dist_grp1);
    assert(replay_flags(ops, 5).dist_grp1);
    assert(replay_flags(ops, 6).dist_grp1);
    assert(replay_flags(ops, 7).dist_grp1 && replay_flags(ops, 7).cpu_grp1);
    assert(replay_flags(ops, 8).dist_grp1 && replay_flags(ops, 8).cpu_grp1);
}

} // verus!
