//! The hypervisor context: the virtual-machine object, its memory slots and
//! its interrupt controller, with the architecture's ordering rule between
//! the controller and the vCPUs checked on every call.

use vstd::prelude::*;
use crate::arch::{spec_irqchip_before_vcpus, Arch};
use crate::memory::{GuestMemory, MemoryRegion};

verus! {

/// Why the hypervisor refused a request.
#[derive(Clone, Copy, Debug, PartialEq, Eq, Structural)]
pub enum VmError {
    /// The image has more regions than the hypervisor has memory slots.
    NotEnoughMemorySlots,
    /// The interrupt controller was already created.
    IrqChipExists,
    /// The interrupt controller and the vCPUs were created in the wrong order
    /// for the architecture.
    WrongOrder,
    /// The interrupt controller was asked for a vCPU count other than the
    /// number of vCPUs that exist.
    IrqChipVcpuCount,
    /// A vCPU was asked for with an index other than the next free one.
    VcpuIndex,
    /// The hypervisor's vCPU limit is reached.
    VcpuLimit,
    /// An interrupt line was routed before the interrupt controller exists.
    NoIrqChip,
}

impl VmError {
    pub open spec fn spec_message(self) -> Seq<char> {
        match self {
            VmError::NotEnoughMemorySlots => "Not enough memory slots for the guest memory regions."@,
            VmError::IrqChipExists => "The interrupt controller already exists."@,
            VmError::WrongOrder => "The interrupt controller and the vCPUs were created out of order."@,
            VmError::IrqChipVcpuCount => "The interrupt controller does not match the vCPU count."@,
            VmError::VcpuIndex => "The vCPU index is not the next free one."@,
            VmError::VcpuLimit => "The hypervisor vCPU limit is reached."@,
            VmError::NoIrqChip => "No interrupt controller to route the interrupt line to."@,
        }
    }

    pub fn message(&self) -> (r: String)
        ensures
            r@ == self.spec_message(),
    {
        match self {
            VmError::NotEnoughMemorySlots => String::from_str("Not enough memory slots for the guest memory regions."),
            VmError::IrqChipExists => String::from_str("The interrupt controller already exists."),
            VmError::WrongOrder => String::from_str("The interrupt controller and the vCPUs were created out of order."),
            VmError::IrqChipVcpuCount => String::from_str("The interrupt controller does not match the vCPU count."),
            VmError::VcpuIndex => String::from_str("The vCPU index is not the next free one."),
            VmError::VcpuLimit => String::from_str("The hypervisor vCPU limit is reached."),
            VmError::NoIrqChip => String::from_str("No interrupt controller to route the interrupt line to."),
        }
    }
}

/// What the hypervisor holds for one machine.
pub struct VmState {
    pub arch: Arch,
    pub memslots: Seq<MemoryRegion>,
    pub max_memslots: nat,
    pub irqchip: bool,
    pub vcpus: nat,
    pub max_vcpus: nat,
    /// Interrupt lines routed to the controller, in order.
    pub irqfds: Seq<u32>,
}

/// One virtual machine object of the hypervisor.
pub struct Vm {
    arch: Arch,
    memslots: Vec<MemoryRegion>,
    max_memslots: usize,
    irqchip: bool,
    vcpus: u8,
    max_vcpus: u8,
    irqfds: Vec<u32>,
}

impl View for Vm {
    type V = VmState;

    closed spec fn view(&self) -> VmState {
        VmState {
            arch: self.arch,
            memslots: self.memslots@,
            max_memslots: self.max_memslots as nat,
            irqchip: self.irqchip,
            vcpus: self.vcpus as nat,
            max_vcpus: self.max_vcpus as nat,
            irqfds: self.irqfds@,
        }
    }
}

/// The error, if any, of creating vCPU `index` in state `s`.
pub open spec fn create_vcpu_error(s: VmState, index: nat) -> Option<VmError> {
    if s.irqchip != spec_irqchip_before_vcpus(s.arch) {
        Some(VmError::WrongOrder)
    } else if index != s.vcpus {
        Some(VmError::VcpuIndex)
    } else if s.vcpus >= s.max_vcpus {
        Some(VmError::VcpuLimit)
    } else {
        None
    }
}

/// The error, if any, of creating the interrupt controller for `vcpu_count`
/// vCPUs in state `s`.
pub open spec fn irqchip_error(s: VmState, vcpu_count: nat) -> Option<VmError> {
    if s.irqchip {
        Some(VmError::IrqChipExists)
    } else if spec_irqchip_before_vcpus(s.arch) && s.vcpus > 0 {
        Some(VmError::WrongOrder)
    } else if !spec_irqchip_before_vcpus(s.arch) && s.vcpus != vcpu_count {
        Some(VmError::IrqChipVcpuCount)
    } else {
        None
    }
}

impl Vm {
    pub open spec fn wf(&self) -> bool {
        self@.vcpus <= self@.max_vcpus && self@.memslots.len() <= self@.max_memslots
    }

    /// A fresh machine object on a hypervisor offering `max_memslots` memory
    /// slots and `max_vcpus` vCPUs.
    pub fn new(arch: Arch, max_memslots: usize, max_vcpus: u8) -> (r: Vm)
        ensures
            r.wf(),
            r@ == (VmState {
                arch,
                memslots: Seq::empty(),
                max_memslots: max_memslots as nat,
                irqchip: false,
                vcpus: 0,
                max_vcpus: max_vcpus as nat,
                irqfds: Seq::empty(),
            }),
    {
        Vm { arch, memslots: Vec::new(), max_memslots, irqchip: false, vcpus: 0, max_vcpus, irqfds: Vec::new() }
    }

    pub fn arch(&self) -> (r: Arch)
        ensures
            r == self@.arch,
    {
        self.arch
    }

    pub fn has_irqchip(&self) -> (r: bool)
        ensures
            r == self@.irqchip,
    {
        self.irqchip
    }

    pub fn vcpu_count(&self) -> (r: u8)
        ensures
            r == self@.vcpus,
    {
        self.vcpus
    }

    pub fn max_vcpus(&self) -> (r: u8)
        ensures
            r == self@.max_vcpus,
    {
        self.max_vcpus
    }

    /// The interrupt lines routed so far, in order.
    pub fn irqfds(&self) -> (r: Vec<u32>)
        ensures
            r@ == self@.irqfds,
    {
        self.irqfds.clone()
    }

    /// Registers every region of `mem` as a memory slot.
    pub fn memory_init(&mut self, mem: &GuestMemory) -> (r: Result<(), VmError>)
        requires
            old(self).wf(),
        ensures
            final(self).wf(),
            if mem@.len() > old(self)@.max_memslots {
                r == Err::<(), VmError>(VmError::NotEnoughMemorySlots) && final(self)@ == old(self)@
            } else {
                r is Ok && final(self)@ == (VmState { memslots: mem@, ..old(self)@ })
            },
    {
        if mem.num_regions() > self.max_memslots {
            return Err(VmError::NotEnoughMemorySlots);
        }
        self.memslots = mem.regions();
        Ok(())
    }

    /// Creates the interrupt controller for `vcpu_count` vCPUs.
    pub fn setup_irqchip(&mut self, vcpu_count: u8) -> (r: Result<(), VmError>)
        requires
            old(self).wf(),
        ensures
            final(self).wf(),
            match irqchip_error(old(self)@, vcpu_count as nat) {
                Some(e) => r == Err::<(), VmError>(e) && final(self)@ == old(self)@,
                None => r is Ok && final(self)@ == (VmState { irqchip: true, ..old(self)@ }),
            },
    {
        if self.irqchip {
            return Err(VmError::IrqChipExists);
        }
        let before = self.arch.irqchip_before_vcpus();
        if before && self.vcpus > 0 {
            return Err(VmError::WrongOrder);
        }
        if !before && self.vcpus != vcpu_count {
            return Err(VmError::IrqChipVcpuCount);
        }
        self.irqchip = true;
        Ok(())
    }

    /// Creates the vCPU with the given index.
    pub fn create_vcpu(&mut self, index: u8) -> (r: Result<(), VmError>)
        requires
            old(self).wf(),
        ensures
            final(self).wf(),
            match create_vcpu_error(old(self)@, index as nat) {
                Some(e) => r == Err::<(), VmError>(e) && final(self)@ == old(self)@,
                None => r is Ok && final(self)@ == (VmState { vcpus: old(self)@.vcpus + 1, ..old(self)@ }),
            },
    {
        if self.irqchip != self.arch.irqchip_before_vcpus() {
            return Err(VmError::WrongOrder);
        }
        if index != self.vcpus {
            return Err(VmError::VcpuIndex);
        }
        if self.vcpus >= self.max_vcpus {
            return Err(VmError::VcpuLimit);
        }
        self.vcpus = self.vcpus + 1;
        Ok(())
    }

    /// Routes interrupt line `irq` to the interrupt controller.
    pub fn register_irqfd(&mut self, irq: u32) -> (r: Result<(), VmError>)
        requires
            old(self).wf(),
        ensures
            final(self).wf(),
            if !old(self)@.irqchip {
                r == Err::<(), VmError>(VmError::NoIrqChip) && final(self)@ == old(self)@
            } else {
                r is Ok && final(self)@ == (VmState { irqfds: old(self)@.irqfds.push(irq), ..old(self)@ })
            },
    {
        if !self.irqchip {
            return Err(VmError::NoIrqChip);
        }
        self.irqfds.push(irq);
        Ok(())
    }
}

} // verus!
