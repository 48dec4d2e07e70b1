//! The vCPU factory: one configured vCPU per requested core, created as one
//! batch that is discarded whole if any creation fails.

use vstd::prelude::*;
use crate::arch::spec_irqchip_before_vcpus;
use crate::vm::{Vm, VmError, VmState};

verus! {

/// The vCPU part of a machine's configuration.
#[derive(Clone, Copy, Debug, PartialEq, Eq, Structural)]
pub struct VcpuConfig {
    pub vcpu_count: u8,
    pub ht_enabled: bool,
}

/// A created and configured vCPU, not yet running.
pub struct Vcpu {
    /// Zero-based index of the core.
    pub index: u8,
    /// Program counter at the first instruction: the kernel load address.
    pub entry_addr: u64,
    pub ht_enabled: bool,
    /// For a secondary core started by software, the index of the one-shot
    /// signal it waits for before it runs.
    pub boot_receiver: Option<u8>,
    /// For core 0 under software start, the signals releasing each secondary
    /// core, one per core.
    pub boot_senders: Vec<u8>,
}

/// The error, if any, of creating `count` vCPUs in state `s`.
pub open spec fn vcpu_batch_error(s: VmState, count: nat) -> Option<VmError> {
    if count == 0 {
        None
    } else if s.irqchip != spec_irqchip_before_vcpus(s.arch) {
        Some(VmError::WrongOrder)
    } else if s.vcpus != 0 {
        Some(VmError::VcpuIndex)
    } else if count > s.max_vcpus {
        Some(VmError::VcpuLimit)
    } else {
        None
    }
}

/// The hypervisor's vCPU count after a batch of `count`, failed or not.
pub open spec fn vcpus_after_batch(s: VmState, count: nat) -> nat {
    match vcpu_batch_error(s, count) {
        None => s.vcpus + count,
        Some(VmError::VcpuLimit) => s.max_vcpus,
        Some(_) => s.vcpus,
    }
}

/// The signals core 0 holds under software start: one for each secondary core.
pub open spec fn secondary_signals(count: nat) -> Seq<u8> {
    Seq::new((if count > 0 { count - 1 } else { 0 }) as nat, |i: int| (i + 1) as u8)
}

/// Vcpu `i` of a batch of `count` is configured for `entry_addr`.
pub open spec fn vcpu_matches(v: &Vcpu, i: int, count: nat, entry_addr: u64, config: VcpuConfig, rendezvous: bool) -> bool {
    &&& v.index == i
    &&& v.entry_addr == entry_addr
    &&& v.ht_enabled == config.ht_enabled
    &&& v.boot_receiver == (if rendezvous && i > 0 { Some(i as u8) } else { None::<u8> })
    &&& v.boot_senders@ == (if rendezvous && i == 0 { secondary_signals(count) } else { Seq::<u8>::empty() })
}

/// The outcome of a whole batch.
pub open spec fn batch_result(
    old_vm: VmState,
    new_vm: VmState,
    config: VcpuConfig,
    entry_addr: u64,
    rendezvous: bool,
    r: Result<Vec<Vcpu>, VmError>,
) -> bool {
    let count = config.vcpu_count as nat;
    &&& new_vm == (VmState { vcpus: vcpus_after_batch(old_vm, count), ..old_vm })
    &&& match vcpu_batch_error(old_vm, count) {
        Some(e) => r matches Err(x) && x == e,
        None => r matches Ok(v) && v@.len() == count && forall|i: int|
            0 <= i < count ==> vcpu_matches(#[trigger] &v@[i], i, count, entry_addr, config, rendezvous),
    }
}

fn create_vcpus(vm: &mut Vm, config: &VcpuConfig, entry_addr: u64, rendezvous: bool) -> (r: Result<
    Vec<Vcpu>,
    VmError,
>)
    requires
        old(vm).wf(),
    ensures
        final(vm).wf(),
        batch_result(old(vm)@, final(vm)@, *config, entry_addr, rendezvous, r),
{
    let count = config.vcpu_count;
    let mut vcpus: Vec<Vcpu> = Vec::new();
    let mut cpu_index: u8 = 0;
    while cpu_index < count
        invariant
            vm.wf(),
            cpu_index <= count,
            count == config.vcpu_count,
            cpu_index > 0 ==> vcpu_batch_error(old(vm)@, count as nat) is None || vcpu_batch_error(
                old(vm)@,
                count as nat,
            ) == Some(VmError::VcpuLimit),
            cpu_index > 0 ==> old(vm)@.vcpus == 0 && old(vm)@.irqchip == spec_irqchip_before_vcpus(old(vm)@.arch),
            vm@ == (VmState { vcpus: (old(vm)@.vcpus + cpu_index) as nat, ..old(vm)@ }),
            cpu_index <= old(vm)@.max_vcpus || old(vm)@.vcpus > 0,
            vcpus@.len() == cpu_index,
            forall|i: int|
                0 <= i < cpu_index ==> vcpu_matches(#[trigger] &vcpus@[i], i, count as nat, entry_addr, *config, rendezvous),
        decreases count - cpu_index,
    {
        match vm.create_vcpu(cpu_index) {
            Err(e) => {
                return Err(e);
            },
            Ok(()) => {},
        }
        let mut boot_senders: Vec<u8> = Vec::new();
        let boot_receiver = if rendezvous && cpu_index > 0 {
            Some(cpu_index)
        } else {
            None
        };
        if rendezvous && cpu_index == 0 {
            let mut s: u8 = 1;
            while s < count
                invariant
                    1 <= s <= count,
                    count == config.vcpu_count,
                    boot_senders@ == Seq::new((s - 1) as nat, |i: int| (i + 1) as u8),
                decreases count - s,
            {
                boot_senders.push(s);
                s += 1;
                assert(boot_senders@ =~= Seq::new((s - 1) as nat, |i: int| (i + 1) as u8));
            }
            assert(boot_senders@ =~= secondary_signals(count as nat));
        } else {
            assert(boot_senders@ =~= Seq::<u8>::empty());
        }
        let vcpu = Vcpu {
            index: cpu_index,
            entry_addr,
            ht_enabled: config.ht_enabled,
            boot_receiver,
            boot_senders,
        };
        vcpus.push(vcpu);
        cpu_index += 1;
    }
    Ok(vcpus)
}

/// Creates and configures `config.vcpu_count` vCPUs on an architecture where
/// the interrupt controller comes first, each entering at `entry_addr`.
pub fn create_vcpus_x86_64(vm: &mut Vm, config: &VcpuConfig, entry_addr: u64) -> (r: Result<Vec<Vcpu>, VmError>)
    requires
        old(vm).wf(),
    ensures
        final(vm).wf(),
        batch_result(old(vm)@, final(vm)@, *config, entry_addr, false, r),
{
    create_vcpus(vm, config, entry_addr, false)
}

/// Creates and configures `config.vcpu_count` vCPUs on an architecture where
/// they come before the interrupt controller. With `software_boot`, core 0
/// holds one release signal for each secondary core, which waits for it.
pub fn create_vcpus_aarch64(vm: &mut Vm, config: &VcpuConfig, entry_addr: u64, software_boot: bool) -> (r: Result<
    Vec<Vcpu>,
    VmError,
>)
    requires
        old(vm).wf(),
    ensures
        final(vm).wf(),
        batch_result(old(vm)@, final(vm)@, *config, entry_addr, software_boot, r),
{
    create_vcpus(vm, config, entry_addr, software_boot)
}

} // verus!
