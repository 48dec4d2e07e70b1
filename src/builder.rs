//! Pre-boot setup and assembly of a microVM: memory image, hypervisor
//! context, interrupt controller and vCPUs in the architecture's order,
//! legacy and memory-mapped devices, the kernel command line, and finally
//! the machine's registration with the reactor.

use vstd::prelude::*;
use crate::arch::{
    spec_cmdline_max_size, spec_irq_base, spec_irq_max, spec_mmio_end, spec_mmio_start, spec_uses_cmdline_boot, Arch,
    CMDLINE_START, MAX_MEM_SIZE_MIB, MMIO_LEN,
};
use crate::cmdline::{spec_insert, spec_insert_str, Cmdline};
use crate::error::{InternalError, MmapRegionError, StartMicrovmError};
use crate::events::{EventManager, EventManagerError, SubscriberKind};
use crate::legacy::{legacy_layout, PortIODeviceManager, COM_1_3_IRQ, COM_2_4_IRQ, KBD_IRQ};
use crate::memory::{
    arch_memory_regions, image_regions, layout_error, lemma_image_disjoint, memory_info, range_in, ArchMemoryInfo,
    GuestMemory,
};
use crate::mmio::{
    device_param, has_id, register_error, DeviceSlot, DeviceType, MMIODeviceManager, MmioError, MmioState,
    TYPE_BALLOON, TYPE_CONSOLE, TYPE_FS, TYPE_VSOCK,
};
use crate::vcpu::{create_vcpus_aarch64, create_vcpus_x86_64, Vcpu, VcpuConfig};
use crate::vm::{Vm, VmError, VmState};

verus! {

/// The command line used when no prologue is configured.
pub const DEFAULT_KERNEL_CMDLINE: &'static str = "reboot=k panic=-1 panic_print=0 nomodule console=hvc0 rootfstype=virtiofs rw quiet no-kvmapf";

/// Where the kernel image is, on the host and in the guest.
#[derive(Clone, Copy, Debug, PartialEq, Eq, Structural)]
pub struct KernelBundle {
    pub host_addr: u64,
    pub guest_addr: u64,
    pub size: u64,
}

/// A configured shared filesystem device.
pub struct FsDeviceConfig {
    pub fs_id: String,
}

/// A configured socket-relay device.
pub struct VsockDeviceConfig {
    pub vsock_id: String,
}

/// What the host offers, as probed before the build.
#[derive(Clone, Copy, Debug, PartialEq, Eq, Structural)]
pub struct HostCaps {
    /// Memory slots the hypervisor offers per machine.
    pub max_memslots: usize,
    /// vCPUs the hypervisor offers per machine.
    pub max_vcpus: u8,
    /// Whether the console input can be polled.
    pub stdin_pollable: bool,
    /// The host's page size, in bytes.
    pub page_size: u64,
}

/// The resolved configuration of one machine.
pub struct VmResources {
    pub arch: Arch,
    pub kernel_bundle: Option<KernelBundle>,
    pub mem_size_mib: Option<u64>,
    pub vcpu_config: VcpuConfig,
    pub kernel_cmdline_prolog: Option<String>,
    pub kernel_cmdline_epilog: Option<String>,
    pub fs: Vec<FsDeviceConfig>,
    pub vsock: Option<VsockDeviceConfig>,
    /// Whether a memory balloon is attached.
    pub balloon: bool,
    /// Whether the console `hvc0` is attached.
    pub console: bool,
    /// Whether secondary cores are released by core 0 in software.
    pub software_boot: bool,
    /// Set once a machine was built from this configuration.
    pub running: bool,
}

/// The assembled machine.
pub struct Vmm {
    pub arch: Arch,
    pub guest_memory: GuestMemory,
    pub arch_memory_info: ArchMemoryInfo,
    pub kernel_cmdline: Cmdline,
    /// The vCPUs handed over to run.
    pub vcpus_handles: Vec<Vcpu>,
    pub vm: Vm,
    pub mmio_device_manager: MMIODeviceManager,
    pub pio_device_manager: PortIODeviceManager,
    /// The command line as written into guest memory at `CMDLINE_START`.
    pub loaded_cmdline: Option<Vec<char>>,
    /// Whether the console reads input.
    pub console_interactive: bool,
}

impl Vmm {
    pub open spec fn wf(&self) -> bool {
        &&& self.vm.wf()
        &&& self.vm@.arch == self.arch
        &&& self.mmio_device_manager@.wf()
        &&& self.mmio_device_manager@.first_base == spec_mmio_start(self.arch)
        &&& self.mmio_device_manager@.window_end == spec_mmio_end(self.arch)
        &&& self.mmio_device_manager@.first_irq == spec_irq_base(self.arch)
        &&& self.mmio_device_manager@.last_irq == spec_irq_max(self.arch)
        &&& self.kernel_cmdline.wf()
        &&& self.guest_memory.wf()
    }
}

/// The parts of a machine that attaching a device leaves alone.
pub open spec fn same_frame(a: &Vmm, b: &Vmm) -> bool {
    &&& a.arch == b.arch
    &&& a.guest_memory@ == b.guest_memory@
    &&& a.arch_memory_info == b.arch_memory_info
    &&& a.kernel_cmdline.spec_capacity() == b.kernel_cmdline.spec_capacity()
    &&& a.vcpus_handles@ == b.vcpus_handles@
    &&& a.pio_device_manager@ == b.pio_device_manager@
    &&& a.loaded_cmdline == b.loaded_cmdline
    &&& a.console_interactive == b.console_interactive
}

/// The machine's devices, routing and command line are as before.
pub open spec fn same_devices(a: &Vmm, b: &Vmm) -> bool {
    &&& a.mmio_device_manager@ == b.mmio_device_manager@
    &&& a.vm@ == b.vm@
    &&& a.kernel_cmdline@ == b.kernel_cmdline@
}

/// The allocator after placing a device at the next window and line.
pub open spec fn mmio_registered(s: MmioState, device_type: DeviceType, id: Seq<char>) -> MmioState {
    MmioState {
        next_base: (s.next_base + MMIO_LEN) as nat,
        next_irq: s.next_irq + 1,
        devices: s.devices.push(
            DeviceSlot { device_type, id, addr: s.next_base as u64, len: MMIO_LEN, irq: s.next_irq as u32 },
        ),
        ..s
    }
}

/// What attaching devices reads and changes: the allocator, the hypervisor's
/// routing, the command line and the reactor's subscribers.
pub struct AttachState {
    pub arch: Arch,
    pub mmio: MmioState,
    pub vm: VmState,
    pub cmdline: Seq<char>,
    pub capacity: int,
    pub events: Seq<(SubscriberKind, Seq<char>)>,
}

/// The attach state of machine `v` with reactor subscribers `events`.
pub open spec fn attach_state(v: &Vmm, events: Seq<(SubscriberKind, Seq<char>)>) -> AttachState {
    AttachState {
        arch: v.arch,
        mmio: v.mmio_device_manager@,
        vm: v.vm@,
        cmdline: v.kernel_cmdline@,
        capacity: v.kernel_cmdline.spec_capacity() as int,
        events,
    }
}

/// Placing a device with identifier `id`: the next window and line are
/// taken and the line routed; then, where device discovery goes through the
/// command line, the device is described there. A placed device stays placed
/// even if describing it fails.
pub open spec fn mmio_step(s: AttachState, device_type: DeviceType, id: Seq<char>) -> (AttachState, Result<(), MmioError>) {
    let err = if has_id(s.mmio.devices, id) {
        Some(MmioError::DeviceExists)
    } else {
        register_error(s.mmio, s.vm, id)
    };
    match err {
        Some(e) => (s, Err(e)),
        None => {
            let placed = AttachState {
                mmio: mmio_registered(s.mmio, device_type, id),
                vm: VmState { irqfds: s.vm.irqfds.push(s.mmio.next_irq as u32), ..s.vm },
                ..s
            };
            if spec_uses_cmdline_boot(s.arch) {
                match spec_insert(
                    s.cmdline,
                    s.capacity,
                    "virtio_mmio.device"@,
                    device_param(s.mmio.next_base as u64, s.mmio.next_irq as u32),
                ) {
                    Ok(l) => (AttachState { cmdline: l, ..placed }, Ok(())),
                    Err(e) => (placed, Err(MmioError::Cmdline(e))),
                }
            } else {
                (placed, Ok(()))
            }
        },
    }
}

/// Places a device on the machine and, where device discovery goes through
/// the command line, describes it there.
fn attach_mmio_device(vmm: &mut Vmm, id: String, device_type: DeviceType) -> (r: Result<(), MmioError>)
    requires
        old(vmm).wf(),
    ensures
        final(vmm).wf(),
        same_frame(old(vmm), final(vmm)),
        mmio_step(attach_state(old(vmm), Seq::empty()), device_type, id@) == (
        attach_state(final(vmm), Seq::empty()),
        r,
        ),
        r is Ok ==> forall|i: int|
            0 <= i < old(vmm).mmio_device_manager@.devices.len() ==> (#[trigger] old(
                vmm,
            ).mmio_device_manager@.devices[i]).addr != old(vmm).mmio_device_manager@.next_base
                && old(vmm).mmio_device_manager@.devices[i].irq != old(vmm).mmio_device_manager@.next_irq,
        r is Ok ==> spec_irq_base(old(vmm).arch) <= old(vmm).mmio_device_manager@.next_irq <= spec_irq_max(
            old(vmm).arch,
        ) && spec_mmio_start(old(vmm).arch) <= old(vmm).mmio_device_manager@.next_base
            && old(vmm).mmio_device_manager@.next_base + MMIO_LEN <= spec_mmio_end(old(vmm).arch),
{
    let (mmio_base, irq) = match vmm.mmio_device_manager.register_mmio_device(&mut vmm.vm, device_type, id) {
        Ok(p) => p,
        Err(e) => {
            return Err(e);
        },
    };
    if vmm.arch.uses_cmdline_boot() {
        vmm.mmio_device_manager.add_device_to_cmdline(&mut vmm.kernel_cmdline, mmio_base, irq)
    } else {
        Ok(())
    }
}

/// The error of a device class when its placement fails.
pub open spec fn class_error(kind: SubscriberKind, e: MmioError) -> StartMicrovmError {
    match kind {
        SubscriberKind::Balloon => StartMicrovmError::RegisterBalloonDevice(e),
        SubscriberKind::Vsock => StartMicrovmError::RegisterVsockDevice(e),
        _ => StartMicrovmError::RegisterFsDevice(e),
    }
}

fn wrap_class_error(kind: SubscriberKind, e: MmioError) -> (r: StartMicrovmError)
    ensures
        r == class_error(kind, e),
{
    match kind {
        SubscriberKind::Balloon => StartMicrovmError::RegisterBalloonDevice(e),
        SubscriberKind::Vsock => StartMicrovmError::RegisterVsockDevice(e),
        _ => StartMicrovmError::RegisterFsDevice(e),
    }
}

/// Attaching a paravirtualized device: it is registered with the reactor
/// first, then placed; a failure of either step ends the attachment.
pub open spec fn virtio_step(s: AttachState, kind: SubscriberKind, device_type: DeviceType, id: Seq<char>) -> (
    AttachState,
    Result<(), StartMicrovmError>,
) {
    if s.events.contains((kind, id)) {
        (s, Err(StartMicrovmError::RegisterEvent(EventManagerError::AlreadyRegistered)))
    } else {
        let (t, placed) = mmio_step(AttachState { events: s.events.push((kind, id)), ..s }, device_type, id);
        (
            t,
            match placed {
                Ok(()) => Ok(()),
                Err(e) => Err(class_error(kind, e)),
            },
        )
    }
}

/// The outcome of attaching a paravirtualized device to `old`.
pub open spec fn attach_virtio_post(
    old: &Vmm,
    new: &Vmm,
    old_events: Seq<(SubscriberKind, Seq<char>)>,
    new_events: Seq<(SubscriberKind, Seq<char>)>,
    kind: SubscriberKind,
    device_type: DeviceType,
    id: Seq<char>,
    r: Result<(), StartMicrovmError>,
) -> bool {
    &&& same_frame(old, new)
    &&& virtio_step(attach_state(old, old_events), kind, device_type, id) == (attach_state(new, new_events), r)
}

/// The identifiers of the configured filesystems, in order.
pub open spec fn fs_ids(fs: Seq<FsDeviceConfig>) -> Seq<Seq<char>> {
    fs.map_values(|d: FsDeviceConfig| d.fs_id@)
}

/// Attaching the filesystems `ids` in order, stopping at the first failure:
/// those before it stay attached, those after it are not touched.
pub open spec fn fs_steps(s: AttachState, ids: Seq<Seq<char>>) -> (AttachState, Result<(), StartMicrovmError>)
    decreases ids.len(),
{
    if ids.len() == 0 {
        (s, Ok(()))
    } else {
        let (t, r) = virtio_step(s, SubscriberKind::Fs, DeviceType::Virtio(TYPE_FS), ids[0]);
        if r is Err {
            (t, r)
        } else {
            fs_steps(t, ids.drop_first())
        }
    }
}

/// Registers a device with the reactor, then places it: the reactor must
/// know the device before its first interrupt can fire.
fn attach_virtio_device(
    vmm: &mut Vmm,
    event_manager: &mut EventManager,
    kind: SubscriberKind,
    device_type: DeviceType,
    id: String,
) -> (r: Result<(), StartMicrovmError>)
    requires
        old(vmm).wf(),
    ensures
        final(vmm).wf(),
        attach_virtio_post(old(vmm), final(vmm), old(event_manager)@, final(event_manager)@, kind, device_type, id@, r),
{
    match event_manager.add_subscriber(kind, id.clone()) {
        Ok(()) => {},
        Err(e) => {
            return Err(StartMicrovmError::RegisterEvent(e));
        },
    }
    match attach_mmio_device(vmm, id, device_type) {
        Ok(()) => Ok(()),
        Err(e) => Err(wrap_class_error(kind, e)),
    }
}

/// Attaches the memory balloon.
pub fn attach_balloon_device(vmm: &mut Vmm, event_manager: &mut EventManager) -> (r: Result<(), StartMicrovmError>)
    requires
        old(vmm).wf(),
    ensures
        final(vmm).wf(),
        attach_virtio_post(
            old(vmm),
            final(vmm),
            old(event_manager)@,
            final(event_manager)@,
            SubscriberKind::Balloon,
            DeviceType::Virtio(TYPE_BALLOON),
            "balloon"@,
            r,
        ),
{
    attach_virtio_device(
        vmm,
        event_manager,
        SubscriberKind::Balloon,
        DeviceType::Virtio(TYPE_BALLOON),
        String::from_str("balloon"),
    )
}

/// Attaches the console `hvc0`; it reads input only if its input can be polled.
pub fn attach_console_devices(vmm: &mut Vmm, event_manager: &mut EventManager, stdin_pollable: bool) -> (r: Result<
    (),
    StartMicrovmError,
>)
    requires
        old(vmm).wf(),
    ensures
        final(vmm).wf(),
        final(vmm).console_interactive == stdin_pollable,
        attach_virtio_post(
            old(vmm),
            &Vmm { console_interactive: old(vmm).console_interactive, ..*final(vmm) },
            old(event_manager)@,
            final(event_manager)@,
            SubscriberKind::Console,
            DeviceType::Virtio(TYPE_CONSOLE),
            "hvc0"@,
            r,
        ),
{
    let r = attach_virtio_device(
        vmm,
        event_manager,
        SubscriberKind::Console,
        DeviceType::Virtio(TYPE_CONSOLE),
        String::from_str("hvc0"),
    );
    vmm.console_interactive = stdin_pollable;
    r
}

/// Attaches the socket-relay device.
pub fn attach_unixsock_vsock_device(
    vmm: &mut Vmm,
    vsock: &VsockDeviceConfig,
    event_manager: &mut EventManager,
) -> (r: Result<(), StartMicrovmError>)
    requires
        old(vmm).wf(),
    ensures
        final(vmm).wf(),
        attach_virtio_post(
            old(vmm),
            final(vmm),
            old(event_manager)@,
            final(event_manager)@,
            SubscriberKind::Vsock,
            DeviceType::Virtio(TYPE_VSOCK),
            vsock.vsock_id@,
            r,
        ),
{
    attach_virtio_device(
        vmm,
        event_manager,
        SubscriberKind::Vsock,
        DeviceType::Virtio(TYPE_VSOCK),
        vsock.vsock_id.clone(),
    )
}

/// Attaches every configured shared filesystem, in order. A failure stops
/// the sequence; devices attached before it stay attached.
pub fn attach_fs_devices(vmm: &mut Vmm, fs_devs: &Vec<FsDeviceConfig>, event_manager: &mut EventManager) -> (r: Result<
    (),
    StartMicrovmError,
>)
    requires
        old(vmm).wf(),
    ensures
        final(vmm).wf(),
        same_frame(old(vmm), final(vmm)),
        fs_steps(attach_state(old(vmm), old(event_manager)@), fs_ids(fs_devs@)) == (
        attach_state(final(vmm), final(event_manager)@),
        r,
        ),
        fs_devs@.len() == 0 ==> r is Ok && same_devices(old(vmm), final(vmm)) && final(event_manager)@ == old(
            event_manager,
        )@,
{
    let ghost ids = fs_ids(fs_devs@);
    assert(ids.subrange(0, ids.len() as int) =~= ids);
    let mut i: usize = 0;
    while i < fs_devs.len()
        invariant
            vmm.wf(),
            i <= fs_devs@.len(),
            ids == fs_ids(fs_devs@),
            same_frame(old(vmm), vmm),
            fs_steps(attach_state(old(vmm), old(event_manager)@), ids) == fs_steps(
                attach_state(vmm, event_manager@),
                ids.subrange(i as int, ids.len() as int),
            ),
            i == 0 ==> same_devices(old(vmm), vmm) && event_manager@ == old(event_manager)@,
        decreases fs_devs@.len() - i,
    {
        let ghost before = attach_state(vmm, event_manager@);
        let ghost rest = ids.subrange(i as int, ids.len() as int);
        let id = fs_devs[i].fs_id.clone();
        let res = attach_virtio_device(vmm, event_manager, SubscriberKind::Fs, DeviceType::Virtio(TYPE_FS), id);
        proof {
            assert(rest[0] == ids[i as int]);
            assert(rest.drop_first() =~= ids.subrange(i + 1, ids.len() as int));
        }
        match res {
            Ok(()) => {},
            Err(e) => {
                return Err(e);
            },
        }
        i += 1;
    }
    proof {
        assert(ids.subrange(i as int, ids.len() as int) =~= Seq::<Seq<char>>::empty());
    }
    Ok(())
}

/// Creates the guest memory image of `mem_size_mib` MiB with the kernel at
/// `[kernel_load_addr, kernel_load_addr + kernel_size)`.
pub fn create_guest_memory(arch: Arch, mem_size_mib: u64, kernel_load_addr: u64, kernel_size: u64) -> (r: Result<
    (GuestMemory, ArchMemoryInfo),
    StartMicrovmError,
>)
    ensures
        match layout_error(arch, mem_size_mib * 0x10_0000, kernel_load_addr as int, kernel_size as int) {
            Some(e) => r matches Err(x) && x == StartMicrovmError::GuestMemoryMmap(e),
            None => r matches Ok((m, info)) && m.wf() && m@ == image_regions(
                arch,
                mem_size_mib * 0x10_0000,
                kernel_load_addr as int,
                kernel_size as int,
            ) && info == memory_info(arch, mem_size_mib * 0x10_0000),
        },
{
    if mem_size_mib > MAX_MEM_SIZE_MIB {
        return Err(StartMicrovmError::GuestMemoryMmap(crate::memory::LayoutError::MemoryTooLarge));
    }
    let mem_size: u64 = mem_size_mib * 0x10_0000;
    match arch_memory_regions(arch, mem_size, kernel_load_addr, kernel_size) {
        Err(e) => Err(StartMicrovmError::GuestMemoryMmap(e)),
        Ok(layout) => {
            proof {
                lemma_image_disjoint(arch, mem_size as int, kernel_load_addr as int, kernel_size as int);
            }
            Ok((GuestMemory::from_regions(layout.regions), layout.info))
        },
    }
}

/// Creates the machine object and registers the memory image with it.
pub fn setup_vm(arch: Arch, guest_memory: &GuestMemory, max_memslots: usize, max_vcpus: u8) -> (r: Result<
    Vm,
    StartMicrovmError,
>)
    ensures
        guest_memory@.len() > max_memslots ==> (r matches Err(x) && x == StartMicrovmError::Internal(
            InternalError::Vm(VmError::NotEnoughMemorySlots),
        )),
        guest_memory@.len() <= max_memslots ==> (r matches Ok(vm) && vm.wf() && vm@ == (VmState {
            arch,
            memslots: guest_memory@,
            max_memslots: max_memslots as nat,
            irqchip: false,
            vcpus: 0,
            max_vcpus: max_vcpus as nat,
            irqfds: Seq::empty(),
        })),
{
    let mut vm = Vm::new(arch, max_memslots, max_vcpus);
    match vm.memory_init(guest_memory) {
        Ok(()) => Ok(vm),
        Err(e) => Err(StartMicrovmError::Internal(InternalError::Vm(e))),
    }
}

/// Creates the interrupt controller, sized for `vcpu_count` vCPUs where the
/// architecture creates it after them.
pub fn setup_interrupt_controller(vm: &mut Vm, vcpu_count: u8) -> (r: Result<(), StartMicrovmError>)
    requires
        old(vm).wf(),
    ensures
        final(vm).wf(),
        match crate::vm::irqchip_error(old(vm)@, vcpu_count as nat) {
            Some(e) => r matches Err(x) && x == StartMicrovmError::Internal(InternalError::Vm(e)) && final(vm)@
                == old(vm)@,
            None => r is Ok && final(vm)@ == (VmState { irqchip: true, ..old(vm)@ }),
        },
{
    match vm.setup_irqchip(vcpu_count) {
        Ok(()) => Ok(()),
        Err(e) => Err(StartMicrovmError::Internal(InternalError::Vm(e))),
    }
}

/// Attaches the legacy devices: on x86_64 the serial ports and keyboard
/// controller on the I/O bus, with their fixed lines routed; on aarch64 the
/// real-time clock in the memory-mapped window.
pub fn attach_legacy_devices(
    vm: &mut Vm,
    pio_device_manager: &mut PortIODeviceManager,
    mmio_device_manager: &mut MMIODeviceManager,
) -> (r: Result<(), StartMicrovmError>)
    requires
        old(vm).wf(),
        old(mmio_device_manager)@.wf(),
    ensures
        final(vm).wf(),
        final(mmio_device_manager)@.wf(),
        final(vm)@.arch == old(vm)@.arch,
        final(vm)@.vcpus == old(vm)@.vcpus,
        final(vm)@.irqchip == old(vm)@.irqchip,
        old(vm)@.arch == Arch::X86_64 ==> final(mmio_device_manager)@ == old(mmio_device_manager)@ && (
        if old(pio_device_manager)@.len() != 0 {
            (r matches Err(x) && x == StartMicrovmError::Internal(
                InternalError::LegacyIOBus(crate::legacy::LegacyError::BusOverlap),
            )) && final(vm)@ == old(vm)@ && final(pio_device_manager)@ == old(pio_device_manager)@
        } else if !old(vm)@.irqchip {
            (r matches Err(x) && x == StartMicrovmError::Internal(InternalError::Vm(VmError::NoIrqChip)))
                && final(pio_device_manager)@ == legacy_layout() && final(vm)@ == old(vm)@
        } else {
            r is Ok && final(pio_device_manager)@ == legacy_layout() && final(vm)@ == (VmState {
                irqfds: old(vm)@.irqfds + seq![COM_1_3_IRQ, COM_2_4_IRQ, KBD_IRQ],
                ..old(vm)@
            })
        }),
        old(vm)@.arch == Arch::Aarch64 ==> final(pio_device_manager)@ == old(pio_device_manager)@ && (
        if has_id(old(mmio_device_manager)@.devices, "rtc"@) {
            (r matches Err(x) && x == StartMicrovmError::Internal(
                InternalError::RegisterMMIODevice(MmioError::DeviceExists),
            )) && final(vm)@ == old(vm)@ && final(mmio_device_manager)@ == old(mmio_device_manager)@
        } else {
            match register_error(old(mmio_device_manager)@, old(vm)@, "rtc"@) {
                Some(e) => (r matches Err(x) && x == StartMicrovmError::Internal(InternalError::RegisterMMIODevice(e)))
                    && final(vm)@ == old(vm)@ && final(mmio_device_manager)@ == old(mmio_device_manager)@,
                None => r is Ok && final(mmio_device_manager)@ == mmio_registered(
                    old(mmio_device_manager)@,
                    DeviceType::Rtc,
                    "rtc"@,
                ) && final(vm)@ == (VmState {
                    irqfds: old(vm)@.irqfds.push(old(mmio_device_manager)@.next_irq as u32),
                    ..old(vm)@
                }),
            }
        }),
{
    if vm.arch() == Arch::X86_64 {
        match pio_device_manager.register_devices() {
            Ok(()) => {},
            Err(e) => {
                return Err(StartMicrovmError::Internal(InternalError::LegacyIOBus(e)));
            },
        }
        let ghost v0 = vm@;
        match vm.register_irqfd(COM_1_3_IRQ) {
            Ok(()) => {},
            Err(e) => {
                return Err(StartMicrovmError::Internal(InternalError::Vm(e)));
            },
        }
        match vm.register_irqfd(COM_2_4_IRQ) {
            Ok(()) => {},
            Err(e) => {
                return Err(StartMicrovmError::Internal(InternalError::Vm(e)));
            },
        }
        match vm.register_irqfd(KBD_IRQ) {
            Ok(()) => {},
            Err(e) => {
                return Err(StartMicrovmError::Internal(InternalError::Vm(e)));
            },
        }
        assert(vm@.irqfds =~= v0.irqfds + seq![COM_1_3_IRQ, COM_2_4_IRQ, KBD_IRQ]);
        Ok(())
    } else {
        match mmio_device_manager.register_mmio_device(vm, DeviceType::Rtc, String::from_str("rtc")) {
            Ok(_) => Ok(()),
            Err(e) => Err(StartMicrovmError::Internal(InternalError::RegisterMMIODevice(e))),
        }
    }
}

/// Writes the command line into guest memory at `CMDLINE_START`, with room
/// for its terminator.
pub fn load_cmdline(vmm: &mut Vmm) -> (r: Result<(), StartMicrovmError>)
    requires
        old(vmm).wf(),
    ensures
        final(vmm).wf(),
        range_in(old(vmm).guest_memory@, CMDLINE_START as int, (old(vmm).kernel_cmdline@.len() + 1) as int) ==> (r is Ok
            && (final(vmm).loaded_cmdline matches Some(l) && l@ == old(vmm).kernel_cmdline@)),
        !range_in(old(vmm).guest_memory@, CMDLINE_START as int, (old(vmm).kernel_cmdline@.len() + 1) as int) ==> (r matches Err(
            x,
        ) && x == StartMicrovmError::LoadCommandline(crate::cmdline::CmdlineError::TooLarge)
            && final(vmm).loaded_cmdline == old(vmm).loaded_cmdline),
        same_devices(old(vmm), final(vmm)),
        final(vmm).arch == old(vmm).arch && final(vmm).guest_memory@ == old(vmm).guest_memory@,
        final(vmm).vcpus_handles@ == old(vmm).vcpus_handles@,
        final(vmm).pio_device_manager@ == old(vmm).pio_device_manager@,
        final(vmm).kernel_cmdline.spec_capacity() == old(vmm).kernel_cmdline.spec_capacity(),
{
    let len = vmm.kernel_cmdline.len();
    if !vmm.guest_memory.contains_range(CMDLINE_START, len as u64 + 1) {
        return Err(StartMicrovmError::LoadCommandline(crate::cmdline::CmdlineError::TooLarge));
    }
    vmm.loaded_cmdline = Some(vmm.kernel_cmdline.chars());
    Ok(())
}

/// The mode of the console's terminal.
#[derive(Clone, Copy, Debug, PartialEq, Eq, Structural)]
pub enum TerminalMode {
    /// Characters pass to the guest one by one, unechoed.
    Raw,
    /// The host's line editing and echo are on.
    Canonical,
}

/// The console input: its terminal is raw while the machine runs and
/// canonical otherwise. The caller applies each mode returned here to the
/// real terminal.
pub struct SerialStdin {
    pub mode: TerminalMode,
}

impl SerialStdin {
    /// Takes the console input, which puts its terminal in raw mode.
    pub fn get() -> (r: SerialStdin)
        ensures
            r.mode == TerminalMode::Raw,
    {
        SerialStdin { mode: TerminalMode::Raw }
    }

    /// The mode to give the terminal back once the input is released.
    pub fn restore() -> (r: TerminalMode)
        ensures
            r == TerminalMode::Canonical,
    {
        TerminalMode::Canonical
    }

    /// The machine booted: the terminal goes raw.
    pub fn on_vmm_boot(&mut self) -> (r: TerminalMode)
        ensures
            r == TerminalMode::Raw,
            final(self).mode == r,
    {
        self.mode = TerminalMode::Raw;
        TerminalMode::Raw
    }

    /// The machine stopped: the terminal goes back to canonical mode.
    pub fn on_vmm_stop(&mut self) -> (r: TerminalMode)
        ensures
            r == TerminalMode::Canonical,
            final(self).mode == r,
    {
        self.mode = TerminalMode::Canonical;
        TerminalMode::Canonical
    }
}

/// A serial device wired to the console.
pub struct SerialDevice {
    /// Whether the reactor polls the serial input.
    pub input_registered: bool,
}

/// Sets up the serial device and registers its input with the reactor. A
/// refused registration is tolerated: in a sandbox the input may not be
/// pollable, and the device then works for output only.
pub fn setup_serial_device(event_manager: &mut EventManager) -> (r: Result<SerialDevice, StartMicrovmError>)
    ensures
        r matches Ok(d) && d.input_registered == !old(event_manager)@.contains(
            (SubscriberKind::Serial, "ttyS0"@),
        ),
        old(event_manager)@.contains((SubscriberKind::Serial, "ttyS0"@)) ==> final(event_manager)@ == old(
            event_manager,
        )@,
        !old(event_manager)@.contains((SubscriberKind::Serial, "ttyS0"@)) ==> final(event_manager)@ == old(
            event_manager,
        )@.push((SubscriberKind::Serial, "ttyS0"@)),
{
    let registered = match event_manager.add_subscriber(SubscriberKind::Serial, String::from_str("ttyS0")) {
        Ok(()) => true,
        Err(_) => false,
    };
    Ok(SerialDevice { input_registered: registered })
}

/// The kernel image's host mapping starts on a host page boundary.
pub open spec fn kernel_bundle_ok(k: KernelBundle, page_size: u64) -> bool {
    k.host_addr % page_size == 0
}

/// The failure of a build that comes before any hypervisor resource is
/// created, if there is one.
pub open spec fn early_error(res: &VmResources, host: HostCaps) -> Option<StartMicrovmError> {
    if res.running {
        Some(StartMicrovmError::MicroVMAlreadyRunning)
    } else {
        match res.kernel_bundle {
            None => Some(StartMicrovmError::MissingKernelConfig),
            Some(k) => if !kernel_bundle_ok(k, host.page_size) {
                Some(StartMicrovmError::KernelBundle(MmapRegionError::InvalidPointer))
            } else {
                match res.mem_size_mib {
                    None => Some(StartMicrovmError::MissingMemSizeConfig),
                    Some(m) => match layout_error(res.arch, m * 0x10_0000, k.guest_addr as int, k.size as int) {
                        Some(e) => Some(StartMicrovmError::GuestMemoryMmap(e)),
                        None => None,
                    },
                }
            },
        }
    }
}

/// The command line a build starts from.
pub open spec fn prolog_of(res: &VmResources) -> Seq<char> {
    match res.kernel_cmdline_prolog {
        None => DEFAULT_KERNEL_CMDLINE@,
        Some(s) => s@,
    }
}

/// The command line after the prologue, or why the prologue was refused.
pub open spec fn prolog_line(res: &VmResources) -> Result<Seq<char>, crate::cmdline::CmdlineError> {
    spec_insert_str(Seq::empty(), spec_cmdline_max_size(res.arch) as int, prolog_of(res))
}

/// The memory image of a configuration with a kernel and a memory size.
pub open spec fn build_image(res: &VmResources) -> Seq<crate::memory::MemoryRegion> {
    let k = res.kernel_bundle->Some_0;
    image_regions(res.arch, res.mem_size_mib->Some_0 * 0x10_0000, k.guest_addr as int, k.size as int)
}

/// Every step before the devices can succeed: the configuration is
/// complete, the prologue fits, and the hypervisor has enough memory slots
/// and vCPUs.
pub open spec fn setup_ok(res: &VmResources, host: HostCaps) -> bool {
    &&& early_error(res, host) is None
    &&& prolog_line(res) is Ok
    &&& build_image(res).len() <= host.max_memslots
    &&& res.vcpu_config.vcpu_count <= host.max_vcpus
}

/// The allocator as a machine of `arch` starts with it.
pub open spec fn fresh_mmio(arch: Arch) -> MmioState {
    MmioState {
        first_base: spec_mmio_start(arch) as nat,
        first_irq: spec_irq_base(arch) as nat,
        next_base: spec_mmio_start(arch) as nat,
        window_end: spec_mmio_end(arch) as nat,
        next_irq: spec_irq_base(arch) as nat,
        last_irq: spec_irq_max(arch) as nat,
        devices: Seq::empty(),
    }
}

/// The attach state once the interrupt controller, the vCPUs and the legacy
/// devices are in place, before any paravirtualized device.
pub open spec fn pre_device_state(res: &VmResources, host: HostCaps, events: Seq<(SubscriberKind, Seq<char>)>) -> AttachState {
    let arch = res.arch;
    let x86 = arch == Arch::X86_64;
    AttachState {
        arch,
        mmio: if x86 {
            fresh_mmio(arch)
        } else {
            mmio_registered(fresh_mmio(arch), DeviceType::Rtc, "rtc"@)
        },
        vm: VmState {
            arch,
            memslots: build_image(res),
            max_memslots: host.max_memslots as nat,
            irqchip: true,
            vcpus: res.vcpu_config.vcpu_count as nat,
            max_vcpus: host.max_vcpus as nat,
            irqfds: if x86 {
                seq![COM_1_3_IRQ, COM_2_4_IRQ, KBD_IRQ]
            } else {
                seq![spec_irq_base(arch)]
            },
        },
        cmdline: prolog_line(res)->Ok_0,
        capacity: spec_cmdline_max_size(arch) as int,
        events,
    }
}

/// Attaching the configured devices in order: balloon, console,
/// filesystems, socket relay; the first failure ends the sequence.
pub open spec fn device_steps(s: AttachState, res: &VmResources) -> (AttachState, Result<(), StartMicrovmError>) {
    let (s1, r1) = if res.balloon {
        virtio_step(s, SubscriberKind::Balloon, DeviceType::Virtio(TYPE_BALLOON), "balloon"@)
    } else {
        (s, Ok(()))
    };
    if r1 is Err {
        (s1, r1)
    } else {
        let (s2, r2) = if res.console {
            virtio_step(s1, SubscriberKind::Console, DeviceType::Virtio(TYPE_CONSOLE), "hvc0"@)
        } else {
            (s1, Ok(()))
        };
        if r2 is Err {
            (s2, r2)
        } else {
            let (s3, r3) = fs_steps(s2, fs_ids(res.fs@));
            if r3 is Err {
                (s3, r3)
            } else {
                match res.vsock {
                    Some(v) => virtio_step(s3, SubscriberKind::Vsock, DeviceType::Virtio(TYPE_VSOCK), v.vsock_id@),
                    None => (s3, Ok(())),
                }
            }
        }
    }
}

/// The command line after the epilogue, or why the epilogue was refused.
pub open spec fn epilog_line(res: &VmResources, line: Seq<char>) -> Result<Seq<char>, crate::cmdline::CmdlineError> {
    match res.kernel_cmdline_epilog {
        None => Ok(line),
        Some(e) => spec_insert_str(line, spec_cmdline_max_size(res.arch) as int, e@),
    }
}

/// The outcome of a build whose setup succeeds, from the state after its
/// devices: the epilogue, the command line's load into guest memory, and
/// the machine's registration with the reactor.
pub open spec fn build_after_devices(
    res: &VmResources,
    s: AttachState,
    dr: Result<(), StartMicrovmError>,
    r: Result<Vmm, StartMicrovmError>,
    events: Seq<(SubscriberKind, Seq<char>)>,
) -> bool {
    match dr {
        Err(e) => (r matches Err(x) && x == e) && events == s.events,
        Ok(()) => match epilog_line(res, s.cmdline) {
            Err(ce) => (r matches Err(StartMicrovmError::KernelCmdline(m)) && m@ == ce.spec_message())
                && events == s.events,
            Ok(l) => if spec_uses_cmdline_boot(res.arch) && !range_in(
                build_image(res),
                CMDLINE_START as int,
                (l.len() + 1) as int,
            ) {
                (r matches Err(x) && x == StartMicrovmError::LoadCommandline(
                    crate::cmdline::CmdlineError::TooLarge,
                )) && events == s.events
            } else if s.events.contains((SubscriberKind::Machine, "vmm"@)) {
                (r matches Err(x) && x == StartMicrovmError::RegisterEvent(EventManagerError::AlreadyRegistered))
                    && events == s.events
            } else {
                r matches Ok(vmm) && vmm.mmio_device_manager@ == s.mmio && vmm.vm@ == s.vm
                    && vmm.kernel_cmdline@ == l && events == s.events.push((SubscriberKind::Machine, "vmm"@))
            },
        },
    }
}

/// What a successful build hands back for configuration `res`.
pub open spec fn built_machine(res: &VmResources, vmm: &Vmm, events: Seq<(SubscriberKind, Seq<char>)>) -> bool {
    let k = res.kernel_bundle->Some_0;
    let m = res.mem_size_mib->Some_0;
    let count = res.vcpu_config.vcpu_count as nat;
    &&& res.kernel_bundle is Some
    &&& res.mem_size_mib is Some
    &&& vmm.wf()
    &&& vmm.arch == res.arch
    &&& vmm.kernel_cmdline.spec_capacity() == spec_cmdline_max_size(res.arch)
    &&& vmm.guest_memory@ == image_regions(res.arch, m * 0x10_0000, k.guest_addr as int, k.size as int)
    &&& vmm.vcpus_handles@.len() == count
    &&& forall|i: int|
        0 <= i < count ==> (#[trigger] vmm.vcpus_handles@[i]).index == i && vmm.vcpus_handles@[i].entry_addr
            == k.guest_addr
    &&& spec_uses_cmdline_boot(res.arch) ==> (vmm.loaded_cmdline matches Some(l) && l@ == vmm.kernel_cmdline@)
    &&& events.len() > 0 && events.last() == (SubscriberKind::Machine, "vmm"@)
    &&& res.arch == Arch::X86_64 ==> vmm.pio_device_manager@ == legacy_layout()
    &&& (res.arch == Arch::X86_64 && !res.balloon && !res.console && res.fs@.len() == 0 && res.vsock is None)
        ==> vmm.mmio_device_manager@.devices.len() == 0
}

/// Builds and starts a machine from `vm_resources`, registering its devices
/// and then the machine itself with the reactor.
///
/// The steps run in a fixed order and the first failure ends the build: the
/// configuration is then left as it was and no machine is returned. On
/// success the configuration is marked running, and a further build from it
/// fails with `MicroVMAlreadyRunning` without touching anything.
/// Every step before the devices: memory image, command-line prologue,
/// machine object, then the interrupt controller, vCPUs and legacy devices
/// in the architecture's order. Returns the machine and its vCPUs.
fn setup_machine(vm_resources: &VmResources, host: &HostCaps) -> (r: Result<(Vmm, Vec<Vcpu>), StartMicrovmError>)
    requires
        !vm_resources.running,
        vm_resources.kernel_bundle is Some,
        kernel_bundle_ok(vm_resources.kernel_bundle->Some_0, host.page_size),
        vm_resources.mem_size_mib is Some,
    ensures
        early_error(vm_resources, *host) matches Some(e) ==> (r matches Err(x) && x == e),
        early_error(vm_resources, *host) is None && prolog_line(vm_resources) is Err ==> (r matches Err(StartMicrovmError::KernelCmdline(m)) && m@
            == prolog_line(vm_resources)->Err_0.spec_message()),
        early_error(vm_resources, *host) is None && prolog_line(vm_resources) is Ok && build_image(vm_resources).len()
            > host.max_memslots ==> (r matches Err(x)
            && x == StartMicrovmError::Internal(InternalError::Vm(VmError::NotEnoughMemorySlots))),
        early_error(vm_resources, *host) is None && prolog_line(vm_resources) is Ok && build_image(vm_resources).len()
            <= host.max_memslots && vm_resources.vcpu_config.vcpu_count > host.max_vcpus ==> (r matches Err(x) && x
            == StartMicrovmError::Internal(InternalError::Vcpu(VmError::VcpuLimit))),
        r is Ok ==> setup_ok(vm_resources, *host),
        setup_ok(vm_resources, *host) ==> (r matches Ok((vmm, vcpus)) && {
            let k = vm_resources.kernel_bundle->Some_0;
            let count = vm_resources.vcpu_config.vcpu_count as nat;
            let pre = pre_device_state(vm_resources, *host, Seq::empty());
            &&& vmm.wf()
            &&& vmm.arch == vm_resources.arch
            &&& vmm.mmio_device_manager@ == pre.mmio
            &&& vmm.vm@ == pre.vm
            &&& vmm.kernel_cmdline@ == pre.cmdline
            &&& vmm.kernel_cmdline.spec_capacity() == spec_cmdline_max_size(vm_resources.arch)
            &&& vmm.guest_memory@ == build_image(vm_resources)
            &&& vmm.loaded_cmdline is None
            &&& vmm.arch == Arch::X86_64 ==> vmm.pio_device_manager@ == legacy_layout()
            &&& vcpus@.len() == count
            &&& forall|i: int|
                0 <= i < count ==> (#[trigger] vcpus@[i]).index == i && vcpus@[i].entry_addr == k.guest_addr
        }),
{
    let arch = vm_resources.arch;
    let kernel = match vm_resources.kernel_bundle {
        None => {
            return Err(StartMicrovmError::MissingKernelConfig);
        },
        Some(k) => k,
    };
    let mem_size_mib = match vm_resources.mem_size_mib {
        None => {
            return Err(StartMicrovmError::MissingMemSizeConfig);
        },
        Some(m) => m,
    };
    let (guest_memory, arch_memory_info) = match create_guest_memory(arch, mem_size_mib, kernel.guest_addr, kernel.size) {
        Ok(p) => p,
        Err(e) => {
            return Err(e);
        },
    };
    let vcpu_config = vm_resources.vcpu_config;
    let mut kernel_cmdline = Cmdline::new(arch.cmdline_max_size());
    let prolog = match &vm_resources.kernel_cmdline_prolog {
        None => kernel_cmdline.insert_str(DEFAULT_KERNEL_CMDLINE),
        Some(s) => kernel_cmdline.insert_str(s.as_str()),
    };
    match prolog {
        Ok(()) => {},
        Err(e) => {
            return Err(StartMicrovmError::from_cmdline_error(e));
        },
    }
    let mut vm = match setup_vm(arch, &guest_memory, host.max_memslots, host.max_vcpus) {
        Ok(vm) => vm,
        Err(e) => {
            return Err(e);
        },
    };
    let mut pio_device_manager = PortIODeviceManager::new();
    let mut mmio_device_manager = MMIODeviceManager::new(
        arch.mmio_mem_start(),
        arch.mmio_mem_end(),
        (arch.irq_base(), arch.irq_max()),
    );
    let vcpus = if arch.irqchip_before_vcpus() {
        match setup_interrupt_controller(&mut vm, vcpu_config.vcpu_count) {
            Ok(()) => {},
            Err(e) => {
                return Err(e);
            },
        }
        match attach_legacy_devices(&mut vm, &mut pio_device_manager, &mut mmio_device_manager) {
            Ok(()) => {},
            Err(e) => {
                return Err(e);
            },
        }
        match create_vcpus_x86_64(&mut vm, &vcpu_config, kernel.guest_addr) {
            Ok(v) => v,
            Err(e) => {
                return Err(StartMicrovmError::Internal(InternalError::Vcpu(e)));
            },
        }
    } else {
        let v = match create_vcpus_aarch64(&mut vm, &vcpu_config, kernel.guest_addr, vm_resources.software_boot) {
            Ok(v) => v,
            Err(e) => {
                return Err(StartMicrovmError::Internal(InternalError::Vcpu(e)));
            },
        };
        match setup_interrupt_controller(&mut vm, vcpu_config.vcpu_count) {
            Ok(()) => {},
            Err(e) => {
                return Err(e);
            },
        }
        match attach_legacy_devices(&mut vm, &mut pio_device_manager, &mut mmio_device_manager) {
            Ok(()) => {},
            Err(e) => {
                return Err(e);
            },
        }
        v
    };
    proof {
        assert(vm@.irqfds =~= pre_device_state(vm_resources, *host, Seq::empty()).vm.irqfds);
    }
    let vmm = Vmm {
        arch,
        guest_memory,
        arch_memory_info,
        kernel_cmdline,
        vcpus_handles: Vec::new(),
        vm,
        mmio_device_manager,
        pio_device_manager,
        loaded_cmdline: None,
        console_interactive: false,
    };
    Ok((vmm, vcpus))
}

/// Attaches the configured devices in order: balloon, console, filesystems,
/// socket relay. The first failure ends the sequence.
fn attach_devices(vmm: &mut Vmm, vm_resources: &VmResources, event_manager: &mut EventManager, stdin_pollable: bool) -> (r: Result<
    (),
    StartMicrovmError,
>)
    requires
        old(vmm).wf(),
    ensures
        final(vmm).wf(),
        final(vmm).arch == old(vmm).arch,
        final(vmm).guest_memory@ == old(vmm).guest_memory@,
        final(vmm).kernel_cmdline.spec_capacity() == old(vmm).kernel_cmdline.spec_capacity(),
        final(vmm).vcpus_handles@ == old(vmm).vcpus_handles@,
        final(vmm).pio_device_manager@ == old(vmm).pio_device_manager@,
        final(vmm).loaded_cmdline == old(vmm).loaded_cmdline,
        device_steps(attach_state(old(vmm), old(event_manager)@), vm_resources) == (
        attach_state(final(vmm), final(event_manager)@),
        r,
        ),
{
    let ghost s0 = attach_state(vmm, event_manager@);
    if vm_resources.balloon {
        match attach_balloon_device(vmm, event_manager) {
            Ok(()) => {},
            Err(e) => {
                return Err(e);
            },
        }
    }
    let ghost s1 = attach_state(vmm, event_manager@);
    assert((s1, Ok::<(), StartMicrovmError>(())) == (if vm_resources.balloon {
        virtio_step(s0, SubscriberKind::Balloon, DeviceType::Virtio(TYPE_BALLOON), "balloon"@)
    } else {
        (s0, Ok(()))
    }));
    if vm_resources.console {
        match attach_console_devices(vmm, event_manager, stdin_pollable) {
            Ok(()) => {},
            Err(e) => {
                return Err(e);
            },
        }
    }
    let ghost s2 = attach_state(vmm, event_manager@);
    assert((s2, Ok::<(), StartMicrovmError>(())) == (if vm_resources.console {
        virtio_step(s1, SubscriberKind::Console, DeviceType::Virtio(TYPE_CONSOLE), "hvc0"@)
    } else {
        (s1, Ok(()))
    }));
    let fs_result = attach_fs_devices(vmm, &vm_resources.fs, event_manager);
    match fs_result {
        Ok(()) => {},
        Err(e) => {
            return Err(e);
        },
    }
    let ghost s3 = attach_state(vmm, event_manager@);
    assert(fs_steps(s2, fs_ids(vm_resources.fs@)).0 == s3 && fs_steps(s2, fs_ids(vm_resources.fs@)).1 is Ok);
    match &vm_resources.vsock {
        Some(vsock) => match attach_unixsock_vsock_device(vmm, vsock, event_manager) {
            Ok(()) => {},
            Err(e) => {
                return Err(e);
            },
        },
        None => {},
    }
    Ok(())
}

pub fn build_microvm(vm_resources: &mut VmResources, event_manager: &mut EventManager, host: &HostCaps) -> (r: Result<
    Vmm,
    StartMicrovmError,
>)
    requires
        host.page_size > 0,
    ensures
        match early_error(old(vm_resources), *host) {
            Some(e) => (r matches Err(x) && x == e) && final(event_manager)@ == old(event_manager)@,
            None => true,
        },
        r is Err ==> *final(vm_resources) == *old(vm_resources),
        early_error(old(vm_resources), *host) is None && prolog_line(old(vm_resources)) is Err ==> (r matches Err(
            StartMicrovmError::KernelCmdline(m),
        ) && m@ == prolog_line(old(vm_resources))->Err_0.spec_message()) && final(event_manager)@ == old(
            event_manager,
        )@,
        early_error(old(vm_resources), *host) is None && prolog_line(old(vm_resources)) is Ok && build_image(
            old(vm_resources),
        ).len() > host.max_memslots ==> (r matches Err(x) && x == StartMicrovmError::Internal(
            InternalError::Vm(VmError::NotEnoughMemorySlots),
        )) && final(event_manager)@ == old(event_manager)@,
        early_error(old(vm_resources), *host) is None && prolog_line(old(vm_resources)) is Ok && build_image(
            old(vm_resources),
        ).len() <= host.max_memslots && old(vm_resources).vcpu_config.vcpu_count > host.max_vcpus ==> (r matches Err(
            x,
        ) && x == StartMicrovmError::Internal(InternalError::Vcpu(VmError::VcpuLimit))) && final(event_manager)@
            == old(event_manager)@,
        setup_ok(old(vm_resources), *host) ==> ({
            let (s, dr) = device_steps(pre_device_state(old(vm_resources), *host, old(event_manager)@), old(vm_resources));
            build_after_devices(old(vm_resources), s, dr, r, final(event_manager)@)
        }),
        r matches Ok(vmm) ==> setup_ok(old(vm_resources), *host) && built_machine(
            old(vm_resources),
            &vmm,
            final(event_manager)@,
        ) && *final(vm_resources) == (VmResources { running: true, ..*old(vm_resources) }),
{
    if vm_resources.running {
        return Err(StartMicrovmError::MicroVMAlreadyRunning);
    }
    let arch = vm_resources.arch;
    let kernel = match vm_resources.kernel_bundle {
        None => {
            return Err(StartMicrovmError::MissingKernelConfig);
        },
        Some(k) => k,
    };
    if kernel.host_addr % host.page_size != 0 {
        return Err(StartMicrovmError::KernelBundle(MmapRegionError::InvalidPointer));
    }
    if vm_resources.mem_size_mib.is_none() {
        return Err(StartMicrovmError::MissingMemSizeConfig);
    }
    let (mut vmm, vcpus) = match setup_machine(vm_resources, host) {
        Ok(p) => p,
        Err(e) => {
            return Err(e);
        },
    };
    let arch = vm_resources.arch;
    let ghost s0 = attach_state(&vmm, event_manager@);
    match attach_devices(&mut vmm, vm_resources, event_manager, host.stdin_pollable) {
        Ok(()) => {},
        Err(e) => {
            return Err(e);
        },
    }
    match &vm_resources.kernel_cmdline_epilog {
        Some(s) => match vmm.kernel_cmdline.insert_str(s.as_str()) {
            Ok(()) => {},
            Err(e) => {
                return Err(StartMicrovmError::from_cmdline_error(e));
            },
        },
        None => {},
    }
    if arch.uses_cmdline_boot() {
        match load_cmdline(&mut vmm) {
            Ok(()) => {},
            Err(e) => {
                return Err(e);
            },
        }
    }
    vmm.vcpus_handles = vcpus;
    match event_manager.add_subscriber(SubscriberKind::Machine, String::from_str("vmm")) {
        Ok(()) => {},
        Err(e) => {
            return Err(StartMicrovmError::RegisterEvent(e));
        },
    }
    vm_resources.running = true;
    Ok(vmm)
}

} // verus!
