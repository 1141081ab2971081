//! Board-support constants for the RK3568 system-on-chip.
//!
//! Fixed physical base addresses from the chip's address map, plus the
//! interrupt identifier the platform assigns to the debug console.

use vstd::prelude::*;

verus! {

/// Physical base address of the temperature-sensor ADC block.
pub const TSADC_PHYS_BASE: u64 = 0xFE71_0000;

/// Physical base address of the debug console (UART2), the port the
/// boot loader already configured for serial output.
pub const UART2_PHYS_BASE: u64 = 0xFE66_0000;

/// Physical base address of the interrupt-controller distributor.
pub const GICD_PHYS_BASE: u64 = 0xFD40_0000;

/// Interrupt identifier routed from the debug console to the
/// interrupt controller.
pub const UART_IRQ_ID: u32 = 56;

/// Priority the boot sequence assigns to the console interrupt: mid
/// range, and more urgent than the fully open priority mask, so the
/// interrupt can reach the core.
pub const CONSOLE_IRQ_PRIORITY: u8 = 0x80;

/// Required alignment of the exception-vector table, in bytes.
pub const VECTOR_TABLE_ALIGN: u64 = 2048;

} // verus!
