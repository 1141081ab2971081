//! Early-boot core of a bare-metal ARM64 kernel for the RK3568
//! system-on-chip, verified over a simulated register model.
//!
//! Every peripheral driver operates on an explicit model of the device's
//! register file: each register write is recorded in order, and the
//! device's documented response to each access is part of the model.
//! Contracts state exactly which registers change, in which order the
//! writes land, and what each driver call returns.

pub mod boot;
pub mod bsp;
pub mod exceptions;
pub mod fault;
pub mod gic;
pub mod mmio;
pub mod tsadc;
pub mod uart;
