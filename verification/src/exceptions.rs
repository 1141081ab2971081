//! Exception vector table and dispatch.
//!
//! The vector table itself is an opaque artifact of the link and
//! assembly step: a 2048-byte-aligned array of fixed entry points,
//! referenced here by address only. This module models the processor
//! state the table installation touches — the vector-base register and
//! the interrupt mask — enforces the initialization-order invariant
//! (install before unmask), and implements the top-level interrupt
//! handler that the table's IRQ entry reaches.

use vstd::prelude::*;

use crate::bsp::UART_IRQ_ID;
use crate::bsp::VECTOR_TABLE_ALIGN;
use crate::gic::Gic;
use crate::gic::SPURIOUS_ID;
use crate::uart::BYTE_CR;
use crate::uart::BYTE_LF;
use crate::uart::Uart;
use crate::uart::thr_writes;

verus! {

/// Spacing of the entry points inside the vector table, in bytes.
pub const VECTOR_SLOT_SIZE: u64 = 0x80;

/// The exception classes the table distinguishes.
pub enum ExceptionClass {
    /// Synchronous exception: a fault or a system call.
    Synchronous,
    /// Ordinary interrupt request.
    Irq,
    /// Fast interrupt request.
    Fiq,
    /// System error.
    SError,
}

/// Where the exception came from: which exception level and which
/// stack pointer the preempted context was using.
pub enum ExceptionOrigin {
    /// Current exception level, using the level-zero stack pointer.
    CurrentSpEl0,
    /// Current exception level, using its own stack pointer.
    CurrentSpElx,
    /// A lower exception level running 64-bit code.
    LowerAarch64,
    /// A lower exception level running 32-bit code.
    LowerAarch32,
}

/// Row of the vector table an origin selects.
pub open spec fn origin_index(origin: ExceptionOrigin) -> int {
    match origin {
        ExceptionOrigin::CurrentSpEl0 => 0,
        ExceptionOrigin::CurrentSpElx => 1,
        ExceptionOrigin::LowerAarch64 => 2,
        ExceptionOrigin::LowerAarch32 => 3,
    }
}

/// Column of the vector table an exception class selects.
pub open spec fn class_index(class: ExceptionClass) -> int {
    match class {
        ExceptionClass::Synchronous => 0,
        ExceptionClass::Irq => 1,
        ExceptionClass::Fiq => 2,
        ExceptionClass::SError => 3,
    }
}

/// Byte offset of one entry point inside the vector table: sixteen
/// slots of 128 bytes, indexed by origin then class. Every slot lies
/// inside the table's 2048 bytes.
pub fn vector_slot_offset(origin: ExceptionOrigin, class: ExceptionClass) -> (off: u64)
    ensures
        off == (origin_index(origin) * 4 + class_index(class)) * VECTOR_SLOT_SIZE,
        off < VECTOR_TABLE_ALIGN,
        off % VECTOR_SLOT_SIZE == 0,
{
    let row: u64 = match origin {
        ExceptionOrigin::CurrentSpEl0 => 0,
        ExceptionOrigin::CurrentSpElx => 1,
        ExceptionOrigin::LowerAarch64 => 2,
        ExceptionOrigin::LowerAarch32 => 3,
    };
    let col: u64 = match class {
        ExceptionClass::Synchronous => 0,
        ExceptionClass::Irq => 1,
        ExceptionClass::Fiq => 2,
        ExceptionClass::SError => 3,
    };
    (row * 4 + col) * VECTOR_SLOT_SIZE
}

/// The processor state the boot sequence configures: the vector-base
/// register and the interrupt mask.
pub struct CpuState {
    /// Vector-base register: the address exception dispatch fetches
    /// entry points from.
    pub vbar: u64,
    /// Whether this core's vector table has been installed over the
    /// boot loader's.
    pub vectors_installed: bool,
    /// Whether interrupts are masked at the processor level.
    pub irq_masked: bool,
}

impl CpuState {
    /// The processor as the boot loader hands it over: its vector-base
    /// register still holds the boot loader's value, and interrupts are
    /// masked — the architecture's state on entry.
    pub fn new(boot_vbar: u64) -> (cpu: CpuState)
        ensures
            cpu.vbar == boot_vbar,
            !cpu.vectors_installed,
            cpu.irq_masked,
    {
        CpuState {
            vbar: boot_vbar,
            vectors_installed: false,
            irq_masked: true,
        }
    }

    /// Installs the linked vector table: writes its address to the
    /// vector-base register (an instruction barrier flushes any
    /// speculative fetch of the old table). The table must be
    /// 2048-byte aligned, and interrupts must still be masked —
    /// installing after unmasking is a correctness violation, so it is
    /// ruled out here.
    pub fn install_vector_table(&mut self, table_addr: u64)
        requires
            table_addr % VECTOR_TABLE_ALIGN == 0,
            old(self).irq_masked,
        ensures
            final(self).vbar == table_addr,
            final(self).vectors_installed,
            final(self).irq_masked == old(self).irq_masked,
    {
        self.vbar = table_addr;
        self.vectors_installed = true;
    }

    /// Unmasks interrupts at the processor level. The vector table must
    /// already be installed: unmasking first could dispatch through the
    /// boot loader's stale table.
    pub fn unmask_irqs(&mut self)
        requires
            old(self).vectors_installed,
        ensures
            !final(self).irq_masked,
            final(self).vbar == old(self).vbar,
            final(self).vectors_installed == old(self).vectors_installed,
    {
        self.irq_masked = false;
    }
}

/// The physical bytes echoing one received byte puts on the wire: the
/// byte itself, with the terminal normalization applied — a line feed
/// is echoed as carriage return then line feed.
pub open spec fn echo_bytes(b: u8) -> Seq<u8> {
    if b == BYTE_LF {
        seq![BYTE_CR, BYTE_LF]
    } else {
        seq![b]
    }
}

/// The top-level interrupt handler the IRQ vector slot reaches.
///
/// Reads the controller's acknowledge register; if the asserted
/// interrupt is the console's, reads the console's interrupt-identity
/// register (acknowledging the peripheral) and drains exactly one
/// received byte if one is present, echoing it; then writes the
/// identifier to the end-of-interrupt register — exactly one such write
/// per handled interrupt, whether or not a byte was present. A spurious
/// acknowledge gets no end-of-interrupt write and touches nothing. The
/// handler never blocks: every step is a single bounded register
/// access.
pub fn handle_irq(gic: &mut Gic, console: &mut Uart) -> (id: u32)
    requires
        old(gic).wf(),
    ensures
        final(gic).wf(),
        // What the acknowledge register reported.
        match old(gic).pending {
            Some(p) => id == if old(gic).deliverable(p as int) { p } else { SPURIOUS_ID },
            None => id == SPURIOUS_ID,
        },
        // Exactly one end-of-interrupt write, bearing the acknowledged
        // identifier, for every non-spurious acknowledge.
        id != SPURIOUS_ID ==> final(gic).eoi_log@ == old(gic).eoi_log@.push(id),
        id != SPURIOUS_ID ==> final(gic).pending is None,
        id == SPURIOUS_ID ==> final(gic).eoi_log@ == old(gic).eoi_log@
            && final(gic).pending == old(gic).pending,
        // Configuration state is never touched from interrupt context.
        final(gic).gicd_ctlr == old(gic).gicd_ctlr,
        final(gic).isenabler@ == old(gic).isenabler@,
        final(gic).ipriorityr@ == old(gic).ipriorityr@,
        final(gic).icc_pmr == old(gic).icc_pmr,
        final(gic).icc_igrpen1 == old(gic).icc_igrpen1,
        final(gic).ops@ == old(gic).ops@,
        // Console effects: only the console's own interrupt drains a
        // byte, and at most one.
        id == UART_IRQ_ID ==> !final(console).irq_pending
            && final(console).ier == old(console).ier
            && final(console).base_address == old(console).base_address
            && (old(console).rx_fifo@.len() > 0 ==> {
                &&& final(console).rx_fifo@ == old(console).rx_fifo@.drop_first()
                &&& final(console).tx_wire@ == old(console).tx_wire@
                    + echo_bytes(old(console).rx_fifo@.first())
                &&& final(console).writes@ == old(console).writes@
                    + thr_writes(echo_bytes(old(console).rx_fifo@.first()))
            })
            && (old(console).rx_fifo@.len() == 0 ==> {
                &&& final(console).rx_fifo@ == old(console).rx_fifo@
                &&& final(console).tx_wire@ == old(console).tx_wire@
                &&& final(console).writes@ == old(console).writes@
            }),
        id != UART_IRQ_ID ==> *final(console) == *old(console),
{
    // 1. Acknowledge: obtain the asserted identifier and mark it active.
    let id = gic.acknowledge();

    // 2. Dispatch on the identifier. Unrecognized identifiers are
    //    acknowledged and ended without action — not an error.
    if id == UART_IRQ_ID {
        let _identity = console.read_interrupt_identity();
        match console.try_get_byte() {
            Some(b) => {
                // Echo the byte, normalized for the terminal.
                if b == BYTE_LF {
                    console.put_byte(BYTE_CR);
                    console.put_byte(BYTE_LF);
                } else {
                    console.put_byte(b);
                }
                proof {
                    assert(console.tx_wire@ =~= old(console).tx_wire@ + echo_bytes(b));
                    assert(console.writes@ =~= old(console).writes@
                        + thr_writes(echo_bytes(b)));
                }
            },
            None => {},
        }
    }

    // 3. End of interrupt: mark the identifier inactive and eligible to
    //    assert again. A spurious acknowledge needs no completion.
    if id != SPURIOUS_ID {
        gic.end_of_interrupt(id);
    }
    id
}

} // verus!
