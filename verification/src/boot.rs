//! Boot sequencer: the single linear bring-up path.
//!
//! The entry stub has already set the stack pointer from the linked
//! stack-top symbol before any code here runs; this module models the
//! rest of the sequence: console first, then — each step optional —
//! vector-table installation, interrupt-controller bring-up, and the
//! processor-level unmask, in exactly that order. A skipped step leaves
//! the machine in the previously reached stable state: still running,
//! interrupts masked, console usable by polling.

use vstd::prelude::*;

use crate::bsp::CONSOLE_IRQ_PRIORITY;
use crate::bsp::GICD_PHYS_BASE;
use crate::bsp::TSADC_PHYS_BASE;
use crate::bsp::UART2_PHYS_BASE;
use crate::bsp::UART_IRQ_ID;
use crate::bsp::VECTOR_TABLE_ALIGN;
use crate::exceptions::CpuState;
use crate::gic::Gic;
use crate::gic::GicOp;
use crate::gic::cpu_interface_ops;
use crate::gic::distributor_ops;
use crate::tsadc::Tsadc;
use crate::uart::BYTE_LF;
use crate::uart::IER_ERBFI;
use crate::uart::Uart;
use crate::uart::crlf_encode;

verus! {

/// Which optional bring-up steps to take.
pub struct BootOptions {
    /// Install this core's exception-vector table over the boot
    /// loader's.
    pub install_vectors: bool,
    /// Bring the interrupt controller up for the console interrupt and
    /// unmask interrupts at the processor level. Requires the vector
    /// table to be installed first.
    pub enable_interrupts: bool,
}

/// The machine state the boot sequence leaves behind.
pub struct Machine {
    /// The console, initialized and already carrying the boot banner.
    pub console: Uart,
    /// Processor state: vector base and interrupt mask.
    pub cpu: CpuState,
    /// The interrupt controller.
    pub gic: Gic,
    /// The temperature sensor.
    pub tsadc: Tsadc,
}

/// The liveness marker the steady-state idle loop emits each tick.
pub open spec fn liveness_marker() -> Seq<u8> {
    seq!['.' as u8]
}

/// The banner the boot sequence writes once the console is up:
/// `[+] kernel core online` and a line feed.
pub open spec fn banner_bytes() -> Seq<u8> {
    seq![
        '[' as u8, '+' as u8, ']' as u8, ' ' as u8,
        'k' as u8, 'e' as u8, 'r' as u8, 'n' as u8, 'e' as u8, 'l' as u8, ' ' as u8,
        'c' as u8, 'o' as u8, 'r' as u8, 'e' as u8, ' ' as u8,
        'o' as u8, 'n' as u8, 'l' as u8, 'i' as u8, 'n' as u8, 'e' as u8,
        BYTE_LF,
    ]
}

/// Builds the banner text.
fn banner_text() -> (v: Vec<u8>)
    ensures
        v@ == banner_bytes(),
{
    let mut v: Vec<u8> = Vec::new();
    v.push('[' as u8);
    v.push('+' as u8);
    v.push(']' as u8);
    v.push(' ' as u8);
    v.push('k' as u8);
    v.push('e' as u8);
    v.push('r' as u8);
    v.push('n' as u8);
    v.push('e' as u8);
    v.push('l' as u8);
    v.push(' ' as u8);
    v.push('c' as u8);
    v.push('o' as u8);
    v.push('r' as u8);
    v.push('e' as u8);
    v.push(' ' as u8);
    v.push('o' as u8);
    v.push('n' as u8);
    v.push('l' as u8);
    v.push('i' as u8);
    v.push('n' as u8);
    v.push('e' as u8);
    v.push(BYTE_LF);
    proof {
        assert(v@ =~= banner_bytes());
    }
    v
}

/// Runs the boot sequence and returns the machine it leaves behind.
///
/// `boot_vbar` is the vector-base value the boot loader left;
/// `table_addr` is the linked vector table's address. The vector-base
/// register keeps the boot loader's value unless and until the table is
/// installed, the controller is configured before interrupts are
/// unmasked, and skipping the optional steps leaves interrupts masked
/// with the controller untouched.
pub fn kernel_boot(boot_vbar: u64, table_addr: u64, opts: BootOptions) -> (m: Machine)
    requires
        table_addr % VECTOR_TABLE_ALIGN == 0,
        opts.enable_interrupts ==> opts.install_vectors,
    ensures
        // Console: initialized exactly once, banner already normalized
        // on the wire, nothing received yet.
        m.console.base_address == UART2_PHYS_BASE,
        m.console.tx_wire@ == crlf_encode(banner_bytes()),
        m.console.rx_fifo@ == Seq::<u8>::empty(),
        m.tsadc.base_addr == TSADC_PHYS_BASE,
        m.gic.wf(),
        m.gic.base_address == GICD_PHYS_BASE,
        // Vector step: installed exactly when asked; otherwise the
        // boot loader's vector base survives.
        opts.install_vectors ==> m.cpu.vbar == table_addr && m.cpu.vectors_installed,
        !opts.install_vectors ==> m.cpu.vbar == boot_vbar && !m.cpu.vectors_installed,
        // Interrupt step: controller configured for the console
        // interrupt, receive interrupt enabled, processor unmasked —
        // or none of that.
        opts.enable_interrupts ==> {
            &&& m.gic.gic_enabled()
            &&& m.gic.id_enabled(UART_IRQ_ID as int)
            &&& m.gic.deliverable(UART_IRQ_ID as int)
            &&& m.console.ier & IER_ERBFI != 0
            &&& !m.cpu.irq_masked
            &&& m.gic.ops@ == distributor_ops(UART_IRQ_ID, CONSOLE_IRQ_PRIORITY, 0)
                + cpu_interface_ops()
        },
        !opts.enable_interrupts ==> {
            &&& !m.gic.gic_enabled()
            &&& m.gic.ops@ == Seq::<GicOp>::empty()
            &&& m.console.ier == 0
            &&& m.cpu.irq_masked
        },
        m.gic.pending is None,
        m.gic.eoi_log@ == Seq::<u32>::empty(),
{
    // Console first, so every later step (and a panic) can report.
    let mut console = crate::uart::init(UART2_PHYS_BASE);
    let banner = banner_text();
    console.write_text(banner.as_slice());

    let mut cpu = CpuState::new(boot_vbar);
    let mut gic = Gic::new(GICD_PHYS_BASE);
    let tsadc = Tsadc::new(TSADC_PHYS_BASE);

    if opts.install_vectors {
        cpu.install_vector_table(table_addr);
        if opts.enable_interrupts {
            // Distributor before per-core interface; both before the
            // processor-level unmask.
            gic.init(UART_IRQ_ID, CONSOLE_IRQ_PRIORITY);
            console.enable_receive_interrupt();
            cpu.unmask_irqs();
        }
    }

    Machine { console, cpu, gic, tsadc }
}

/// One tick of the steady-state idle loop: emits the liveness marker.
/// The unbounded loop itself belongs to the caller — the kernel never
/// returns from it.
pub fn idle_tick(m: &mut Machine)
    ensures
        final(m).console.tx_wire@ == old(m).console.tx_wire@ + crlf_encode(liveness_marker()),
        final(m).console.rx_fifo@ == old(m).console.rx_fifo@,
        final(m).console.ier == old(m).console.ier,
        final(m).console.base_address == old(m).console.base_address,
        final(m).cpu == old(m).cpu,
        final(m).gic == old(m).gic,
        final(m).tsadc == old(m).tsadc,
{
    let mut marker: Vec<u8> = Vec::new();
    marker.push('.' as u8);
    proof {
        assert(marker@ =~= liveness_marker());
    }
    m.console.write_text(marker.as_slice());
}

} // verus!
