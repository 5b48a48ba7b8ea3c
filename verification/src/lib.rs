//! Hardware abstraction layer for the HiSilicon WS63 / BS2X RISC-V SoCs.
//!
//! The register-level sequencing, field encodings and diagnostic decoders
//! of the drivers live here with their contracts; the volatile register
//! accesses themselves are performed by the integration layer.

pub mod pdm;
pub mod peripherals;
pub mod rf_power;
pub mod shared_memory;
pub mod usb;
pub mod wlmac;

pub use peripherals::Peripherals;
