//! Guest physical memory layout: the RAM regions around the kernel window,
//! the kernel window itself, and the derived architecture metadata.

use vstd::prelude::*;
use crate::arch::{
    spec_ram_start, Arch, AARCH64_DRAM_MEM_START, FIRST_ADDR_PAST_32BITS, MAX_MEM_SIZE_MIB, PAGE_SIZE,
    SHM_WINDOW_SIZE, X86_64_MMIO_MEM_START,
};

verus! {

/// What a guest memory region holds.
#[derive(Clone, Copy, Debug, PartialEq, Eq, Structural)]
pub enum RegionKind {
    Ram,
    Kernel,
}

/// One independently mapped range of guest physical memory.
#[derive(Clone, Copy, Debug, PartialEq, Eq, Structural)]
pub struct MemoryRegion {
    pub base: u64,
    pub size: u64,
    pub kind: RegionKind,
}

/// Metadata derived alongside the memory layout.
#[derive(Clone, Copy, Debug, PartialEq, Eq, Structural)]
pub struct ArchMemoryInfo {
    /// First guest address past all RAM.
    pub ram_end_addr: u64,
    /// Start of the shared-memory window, right after RAM.
    pub shm_start_addr: u64,
    /// Size of the shared-memory window.
    pub shm_size: u64,
}

/// Why a memory layout could not be computed.
#[derive(Clone, Copy, Debug, PartialEq, Eq, Structural)]
pub enum LayoutError {
    /// The requested memory size exceeds the supported maximum.
    MemoryTooLarge,
    /// The kernel image has no bytes.
    EmptyKernel,
    /// The kernel address or size is not a multiple of the page size.
    UnalignedKernel,
    /// The kernel window does not lie inside the low part of RAM.
    KernelOutsideRam,
}

impl LayoutError {
    pub open spec fn spec_message(self) -> Seq<char> {
        match self {
            LayoutError::MemoryTooLarge => "MemoryTooLarge"@,
            LayoutError::EmptyKernel => "EmptyKernel"@,
            LayoutError::UnalignedKernel => "UnalignedKernel"@,
            LayoutError::KernelOutsideRam => "KernelOutsideRam"@,
        }
    }

    /// The name of the error, as a debug rendering gives it.
    pub fn message(&self) -> (r: String)
        ensures
            r@ == self.spec_message(),
    {
        match self {
            LayoutError::MemoryTooLarge => String::from_str("MemoryTooLarge"),
            LayoutError::EmptyKernel => String::from_str("EmptyKernel"),
            LayoutError::UnalignedKernel => String::from_str("UnalignedKernel"),
            LayoutError::KernelOutsideRam => String::from_str("KernelOutsideRam"),
        }
    }
}

pub open spec fn region_end(r: MemoryRegion) -> int {
    r.base as int + r.size as int
}

/// Regions are sorted by address and no two of them overlap.
pub open spec fn disjoint_sorted(s: Seq<MemoryRegion>) -> bool {
    forall|i: int, j: int| 0 <= i < j < s.len() ==> region_end(#[trigger] s[i]) <= (#[trigger] s[j]).base
}

pub open spec fn ram(base: int, size: int) -> MemoryRegion {
    MemoryRegion { base: base as u64, size: size as u64, kind: RegionKind::Ram }
}

pub open spec fn push_ram(s: Seq<MemoryRegion>, base: int, size: int) -> Seq<MemoryRegion> {
    if size > 0 {
        s.push(ram(base, size))
    } else {
        s
    }
}

/// End (exclusive) of the RAM that lies below the memory-mapped I/O window.
pub open spec fn low_ram_end(arch: Arch, mem_size: int) -> int {
    match arch {
        Arch::X86_64 => if mem_size < X86_64_MMIO_MEM_START {
            mem_size
        } else {
            X86_64_MMIO_MEM_START as int
        },
        Arch::Aarch64 => AARCH64_DRAM_MEM_START + mem_size,
    }
}

/// RAM that does not fit below the I/O window on x86_64 and continues past 4 GiB.
pub open spec fn high_ram_size(arch: Arch, mem_size: int) -> int {
    match arch {
        Arch::X86_64 => if mem_size > X86_64_MMIO_MEM_START {
            mem_size - X86_64_MMIO_MEM_START
        } else {
            0
        },
        Arch::Aarch64 => 0,
    }
}

pub open spec fn ram_end(arch: Arch, mem_size: int) -> int {
    if high_ram_size(arch, mem_size) > 0 {
        FIRST_ADDR_PAST_32BITS + high_ram_size(arch, mem_size)
    } else {
        low_ram_end(arch, mem_size)
    }
}

/// Which error, if any, the layout of `mem_size` bytes with the kernel at
/// `[load_addr, load_addr + kernel_size)` fails with.
pub open spec fn layout_error(arch: Arch, mem_size: int, load_addr: int, kernel_size: int) -> Option<LayoutError> {
    if mem_size > MAX_MEM_SIZE_MIB * 0x10_0000 {
        Some(LayoutError::MemoryTooLarge)
    } else if kernel_size == 0 {
        Some(LayoutError::EmptyKernel)
    } else if load_addr % (PAGE_SIZE as int) != 0 || kernel_size % (PAGE_SIZE as int) != 0 {
        Some(LayoutError::UnalignedKernel)
    } else if load_addr < spec_ram_start(arch) || load_addr + kernel_size > low_ram_end(arch, mem_size) {
        Some(LayoutError::KernelOutsideRam)
    } else {
        None
    }
}

/// The full image: RAM before the kernel, the kernel window, RAM after it up
/// to the I/O window, and on x86_64 the RAM moved past 4 GiB.
pub open spec fn image_regions(arch: Arch, mem_size: int, load_addr: int, kernel_size: int) -> Seq<MemoryRegion> {
    let rs = spec_ram_start(arch) as int;
    let kernel = MemoryRegion { base: load_addr as u64, size: kernel_size as u64, kind: RegionKind::Kernel };
    let before = push_ram(Seq::empty(), rs, load_addr - rs).push(kernel);
    let low = push_ram(before, load_addr + kernel_size, low_ram_end(arch, mem_size) - load_addr - kernel_size);
    push_ram(low, FIRST_ADDR_PAST_32BITS as int, high_ram_size(arch, mem_size))
}

pub open spec fn memory_info(arch: Arch, mem_size: int) -> ArchMemoryInfo {
    ArchMemoryInfo {
        ram_end_addr: ram_end(arch, mem_size) as u64,
        shm_start_addr: ram_end(arch, mem_size) as u64,
        shm_size: SHM_WINDOW_SIZE,
    }
}

/// The kernel window of a layout: the region with kind `Kernel`.
pub open spec fn has_kernel_region(s: Seq<MemoryRegion>, load_addr: int, kernel_size: int) -> bool {
    exists|k: int|
        0 <= k < s.len() && (#[trigger] s[k]).kind == RegionKind::Kernel && s[k].base == load_addr
            && s[k].size == kernel_size
}

/// Every region of a valid layout has bytes.
pub open spec fn all_nonempty(s: Seq<MemoryRegion>) -> bool {
    forall|i: int| 0 <= i < s.len() ==> (#[trigger] s[i]).size > 0
}

/// The regions of a memory image never overlap, every one of them has bytes,
/// and the kernel region starts exactly at the configured load address.
pub proof fn lemma_image_disjoint(arch: Arch, mem_size: int, load_addr: int, kernel_size: int)
    requires
        0 <= mem_size,
        0 <= load_addr,
        0 <= kernel_size,
        layout_error(arch, mem_size, load_addr, kernel_size) is None,
    ensures
        disjoint_sorted(image_regions(arch, mem_size, load_addr, kernel_size)),
        all_nonempty(image_regions(arch, mem_size, load_addr, kernel_size)),
        has_kernel_region(image_regions(arch, mem_size, load_addr, kernel_size), load_addr, kernel_size),
        forall|i: int|
            0 <= i < image_regions(arch, mem_size, load_addr, kernel_size).len() ==> spec_ram_start(arch)
                <= (#[trigger] image_regions(arch, mem_size, load_addr, kernel_size)[i]).base
                && region_end(image_regions(arch, mem_size, load_addr, kernel_size)[i]) <= ram_end(
                arch,
                mem_size,
            ),
{
    let rs = spec_ram_start(arch) as int;
    let kernel = MemoryRegion { base: load_addr as u64, size: kernel_size as u64, kind: RegionKind::Kernel };
    let s0 = push_ram(Seq::empty(), rs, load_addr - rs);
    let before = s0.push(kernel);
    let low = push_ram(before, load_addr + kernel_size, low_ram_end(arch, mem_size) - load_addr - kernel_size);
    let s = image_regions(arch, mem_size, load_addr, kernel_size);
    assert(mem_size <= 0x1_0000_0000_0000);
    assert(low_ram_end(arch, mem_size) <= 0x8000_0000 + mem_size);
    assert(0 <= load_addr < 0x1_0000_0000_0000_0000 && 0 <= kernel_size < 0x1_0000_0000_0000_0000);
    assert(kernel.base == load_addr && kernel.size == kernel_size);
    assert(s0.len() <= 1);
    assert(s.len() <= 4);
    let k = s0.len() as int;
    assert(s[k] == kernel);
    assert(has_kernel_region(s, load_addr, kernel_size));
}

/// A computed memory image and its metadata.
#[derive(Debug)]
pub struct ImageLayout {
    pub info: ArchMemoryInfo,
    pub regions: Vec<MemoryRegion>,
}

/// Computes the memory image for `mem_size` bytes of RAM with the kernel at
/// `[load_addr, load_addr + kernel_size)`.
pub fn arch_memory_regions(arch: Arch, mem_size: u64, load_addr: u64, kernel_size: u64) -> (r: Result<
    ImageLayout,
    LayoutError,
>)
    ensures
        match layout_error(arch, mem_size as int, load_addr as int, kernel_size as int) {
            Some(e) => r == Err::<ImageLayout, LayoutError>(e),
            None => r matches Ok(l) && l.regions@ == image_regions(
                arch,
                mem_size as int,
                load_addr as int,
                kernel_size as int,
            ) && l.info == memory_info(arch, mem_size as int),
        },
{
    if mem_size > MAX_MEM_SIZE_MIB * 0x10_0000 {
        return Err(LayoutError::MemoryTooLarge);
    }
    if kernel_size == 0 {
        return Err(LayoutError::EmptyKernel);
    }
    if load_addr % PAGE_SIZE != 0 || kernel_size % PAGE_SIZE != 0 {
        return Err(LayoutError::UnalignedKernel);
    }
    let rs = arch.ram_start();
    let low_end: u64 = match arch {
        Arch::X86_64 => if mem_size < X86_64_MMIO_MEM_START {
            mem_size
        } else {
            X86_64_MMIO_MEM_START
        },
        Arch::Aarch64 => AARCH64_DRAM_MEM_START + mem_size,
    };
    if load_addr < rs || load_addr > low_end || kernel_size > low_end - load_addr {
        return Err(LayoutError::KernelOutsideRam);
    }
    let high: u64 = match arch {
        Arch::X86_64 => if mem_size > X86_64_MMIO_MEM_START {
            mem_size - X86_64_MMIO_MEM_START
        } else {
            0
        },
        Arch::Aarch64 => 0,
    };
    let mut regions: Vec<MemoryRegion> = Vec::new();
    if load_addr > rs {
        regions.push(MemoryRegion { base: rs, size: load_addr - rs, kind: RegionKind::Ram });
    }
    regions.push(MemoryRegion { base: load_addr, size: kernel_size, kind: RegionKind::Kernel });
    let after = load_addr + kernel_size;
    if low_end > after {
        regions.push(MemoryRegion { base: after, size: low_end - after, kind: RegionKind::Ram });
    }
    let end = if high > 0 {
        regions.push(MemoryRegion { base: FIRST_ADDR_PAST_32BITS, size: high, kind: RegionKind::Ram });
        FIRST_ADDR_PAST_32BITS + high
    } else {
        low_end
    };
    let info = ArchMemoryInfo { ram_end_addr: end, shm_start_addr: end, shm_size: SHM_WINDOW_SIZE };
    proof {
        assert(regions@ == image_regions(arch, mem_size as int, load_addr as int, kernel_size as int));
    }
    Ok(ImageLayout { info, regions })
}

} // verus!

verus! {

/// Whether `[addr, addr + len)` lies inside one region of `s`.
pub open spec fn range_in(s: Seq<MemoryRegion>, addr: int, len: int) -> bool {
    exists|i: int| 0 <= i < s.len() && (#[trigger] s[i]).base <= addr && addr + len <= region_end(s[i])
}

/// The guest memory image: disjoint, sorted, non-empty regions.
pub struct GuestMemory {
    regions: Vec<MemoryRegion>,
}

impl View for GuestMemory {
    type V = Seq<MemoryRegion>;

    closed spec fn view(&self) -> Seq<MemoryRegion> {
        self.regions@
    }
}

impl GuestMemory {
    pub open spec fn wf(&self) -> bool {
        disjoint_sorted(self@) && all_nonempty(self@)
    }

    /// An image made of `regions`, which must not overlap.
    pub fn from_regions(regions: Vec<MemoryRegion>) -> (r: GuestMemory)
        requires
            disjoint_sorted(regions@),
            all_nonempty(regions@),
        ensures
            r@ == regions@,
            r.wf(),
    {
        GuestMemory { regions }
    }

    pub fn num_regions(&self) -> (r: usize)
        ensures
            r == self@.len(),
    {
        self.regions.len()
    }

    pub fn region(&self, i: usize) -> (r: MemoryRegion)
        requires
            i < self@.len(),
        ensures
            r == self@[i as int],
    {
        self.regions[i]
    }

    /// A copy of the regions, as handed to the hypervisor.
    pub fn regions(&self) -> (r: Vec<MemoryRegion>)
        ensures
            r@ == self@,
    {
        self.regions.clone()
    }

    /// Whether `[addr, addr + len)` lies inside one region.
    pub fn contains_range(&self, addr: u64, len: u64) -> (r: bool)
        ensures
            r == range_in(self@, addr as int, len as int),
    {
        let mut i: usize = 0;
        while i < self.regions.len()
            invariant
                i <= self@.len(),
                forall|j: int|
                    0 <= j < i ==> !((#[trigger] self@[j]).base <= addr && addr + len <= region_end(self@[j])),
            decreases self@.len() - i,
        {
            let reg = self.regions[i];
            if reg.base <= addr && len <= reg.size && addr - reg.base <= reg.size - len {
                return true;
            }
            i += 1;
        }
        false
    }
}

} // verus!
