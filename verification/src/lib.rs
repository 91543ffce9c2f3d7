//! Command encoding for an NVMe namespace driven through the kernel's
//! passthrough interfaces.
//!
//! The crate turns byte-addressed block requests into the fixed-layout
//! command structures that the NVMe driver expects, reads the namespace
//! geometry out of an identify response, and maps completion codes to
//! results. It performs no I/O itself: the caller opens the device, issues
//! the control requests and drives the submission ring, and hands the
//! outcomes back.

pub mod byte_order;
pub mod command;
pub mod device;
pub mod error;
pub mod identify;
pub mod open;
pub mod ring;
