//! Register-level driver logic for a DesignWare 8250-compatible UART and for
//! Rockchip-style pin-mux / GPIO registers that use an upper-16-bit
//! write-enable convention.
//!
//! All hardware state is modelled by [`mmio::MmioRegion`], a register region
//! that records every store in order. The driver operations are specified by
//! the exact sequence of writes they issue; a raw memory-mapped runner can
//! replay the same sequences against real hardware.

pub mod mmio;
pub mod regs;
pub mod bits;
pub mod uart;
pub mod pinmux;
