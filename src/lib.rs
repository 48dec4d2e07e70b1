//! Pre-boot assembly of a microVM: guest memory layout, hypervisor context,
//! vCPU creation, device attachment and the kernel command line, with the
//! order of each step and its failures stated as contracts.

pub mod arch;
pub mod builder;
pub mod cmdline;
pub mod error;
pub mod events;
pub mod fmt;
pub mod legacy;
pub mod memory;
pub mod mmio;
pub mod vcpu;
pub mod vm;
