//! Architecture strategies: the constants and ordering rules that differ
//! between the supported CPU architectures, chosen once per machine.

use vstd::prelude::*;

verus! {

/// The CPU architecture a machine is built for.
#[derive(Clone, Copy, Debug, PartialEq, Eq, Structural)]
pub enum Arch {
    X86_64,
    Aarch64,
}

/// Granularity of every guest memory region.
pub const PAGE_SIZE: u64 = 0x1000;

/// Size of the address window given to one memory-mapped device.
pub const MMIO_LEN: u64 = 0x1000;

/// First guest address above the 32-bit space.
pub const FIRST_ADDR_PAST_32BITS: u64 = 0x1_0000_0000;

/// Start of the memory-mapped I/O window on x86_64 (RAM is split around it).
pub const X86_64_MMIO_MEM_START: u64 = 0xd000_0000;

/// Start of the memory-mapped I/O window on aarch64 (below RAM).
pub const AARCH64_MMIO_MEM_START: u64 = 0x4000_0000;

/// Start of RAM on aarch64.
pub const AARCH64_DRAM_MEM_START: u64 = 0x8000_0000;

/// Guest address where the kernel command line is written on x86_64.
pub const CMDLINE_START: u64 = 0x20000;

/// Largest guest memory size accepted, in MiB.
pub const MAX_MEM_SIZE_MIB: u64 = 0x1000_0000;

/// Size of the shared-memory window placed right after RAM.
pub const SHM_WINDOW_SIZE: u64 = 0x4000_0000;

pub open spec fn spec_ram_start(arch: Arch) -> u64 {
    match arch {
        Arch::X86_64 => 0,
        Arch::Aarch64 => AARCH64_DRAM_MEM_START,
    }
}

pub open spec fn spec_mmio_start(arch: Arch) -> u64 {
    match arch {
        Arch::X86_64 => X86_64_MMIO_MEM_START,
        Arch::Aarch64 => AARCH64_MMIO_MEM_START,
    }
}

/// End (exclusive) of the memory-mapped I/O window.
pub open spec fn spec_mmio_end(arch: Arch) -> u64 {
    match arch {
        Arch::X86_64 => FIRST_ADDR_PAST_32BITS,
        Arch::Aarch64 => AARCH64_DRAM_MEM_START,
    }
}

pub open spec fn spec_irq_base(arch: Arch) -> u32 {
    match arch {
        Arch::X86_64 => 5,
        Arch::Aarch64 => 32,
    }
}

pub open spec fn spec_irq_max(arch: Arch) -> u32 {
    match arch {
        Arch::X86_64 => 23,
        Arch::Aarch64 => 128,
    }
}

pub open spec fn spec_cmdline_max_size(arch: Arch) -> usize {
    match arch {
        Arch::X86_64 => 0x10000,
        Arch::Aarch64 => 2048,
    }
}

/// Whether the interrupt controller must exist before any vCPU is created
/// (x86_64), or only after all of them (aarch64).
pub open spec fn spec_irqchip_before_vcpus(arch: Arch) -> bool {
    arch == Arch::X86_64
}

/// Whether boot parameters and device discovery go through the textual
/// command line written into guest memory (x86_64), rather than through a
/// boot-description blob (aarch64).
pub open spec fn spec_uses_cmdline_boot(arch: Arch) -> bool {
    arch == Arch::X86_64
}

impl Arch {
    pub fn ram_start(self) -> (r: u64)
        ensures
            r == spec_ram_start(self),
    {
        match self {
            Arch::X86_64 => 0,
            Arch::Aarch64 => AARCH64_DRAM_MEM_START,
        }
    }

    pub fn mmio_mem_start(self) -> (r: u64)
        ensures
            r == spec_mmio_start(self),
    {
        match self {
            Arch::X86_64 => X86_64_MMIO_MEM_START,
            Arch::Aarch64 => AARCH64_MMIO_MEM_START,
        }
    }

    pub fn mmio_mem_end(self) -> (r: u64)
        ensures
            r == spec_mmio_end(self),
    {
        match self {
            Arch::X86_64 => FIRST_ADDR_PAST_32BITS,
            Arch::Aarch64 => AARCH64_DRAM_MEM_START,
        }
    }

    pub fn irq_base(self) -> (r: u32)
        ensures
            r == spec_irq_base(self),
    {
        match self {
            Arch::X86_64 => 5,
            Arch::Aarch64 => 32,
        }
    }

    pub fn irq_max(self) -> (r: u32)
        ensures
            r == spec_irq_max(self),
    {
        match self {
            Arch::X86_64 => 23,
            Arch::Aarch64 => 128,
        }
    }

    pub fn cmdline_max_size(self) -> (r: usize)
        ensures
            r == spec_cmdline_max_size(self),
    {
        match self {
            Arch::X86_64 => 0x10000,
            Arch::Aarch64 => 2048,
        }
    }

    pub fn irqchip_before_vcpus(self) -> (r: bool)
        ensures
            r == spec_irqchip_before_vcpus(self),
    {
        match self {
            Arch::X86_64 => true,
            Arch::Aarch64 => false,
        }
    }

    pub fn uses_cmdline_boot(self) -> (r: bool)
        ensures
            r == spec_uses_cmdline_boot(self),
    {
        match self {
            Arch::X86_64 => true,
            Arch::Aarch64 => false,
        }
    }
}

} // verus!
