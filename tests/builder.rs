use vmm::arch::{Arch, CMDLINE_START};
use vmm::builder::{
    attach_fs_devices, attach_legacy_devices, attach_unixsock_vsock_device, build_microvm, create_guest_memory,
    setup_interrupt_controller, setup_serial_device, setup_vm, FsDeviceConfig, HostCaps, KernelBundle, SerialStdin,
    TerminalMode, VmResources, VsockDeviceConfig, Vmm, DEFAULT_KERNEL_CMDLINE,
};
use vmm::cmdline::{Cmdline, CmdlineError};
use vmm::error::{InternalError, MmapRegionError, OsError, StartMicrovmError};
use vmm::events::{EventManager, EventManagerError, SubscriberKind};
use vmm::legacy::{LegacyError, PortIODeviceManager};
use vmm::memory::{LayoutError, RegionKind};
use vmm::mmio::{DeviceType, MMIODeviceManager, MmioError, TYPE_FS, TYPE_VSOCK};
use vmm::vcpu::{create_vcpus_aarch64, create_vcpus_x86_64, VcpuConfig};
use vmm::vm::VmError;

fn default_mmio_device_manager(arch: Arch) -> MMIODeviceManager {
    MMIODeviceManager::new(arch.mmio_mem_start(), arch.mmio_mem_end(), (arch.irq_base(), arch.irq_max()))
}

fn default_kernel_cmdline() -> Cmdline {
    let mut kernel_cmdline = Cmdline::new(4096);
    kernel_cmdline.insert_str(DEFAULT_KERNEL_CMDLINE).unwrap();
    kernel_cmdline
}

fn default_vmm() -> Vmm {
    let (guest_memory, arch_memory_info) = create_guest_memory(Arch::X86_64, 128, 0x1000, 0x1000).unwrap();
    let vm = setup_vm(Arch::X86_64, &guest_memory, 32, 64).unwrap();
    Vmm {
        arch: Arch::X86_64,
        guest_memory,
        arch_memory_info,
        kernel_cmdline: default_kernel_cmdline(),
        vcpus_handles: Vec::new(),
        vm,
        mmio_device_manager: default_mmio_device_manager(Arch::X86_64),
        pio_device_manager: PortIODeviceManager::new(),
        loaded_cmdline: None,
        console_interactive: false,
    }
}

fn default_resources() -> VmResources {
    VmResources {
        arch: Arch::X86_64,
        kernel_bundle: Some(KernelBundle { host_addr: 0x1000, guest_addr: 0x1000, size: 0x1000 }),
        mem_size_mib: Some(128),
        vcpu_config: VcpuConfig { vcpu_count: 1, ht_enabled: false },
        kernel_cmdline_prolog: None,
        kernel_cmdline_epilog: None,
        fs: Vec::new(),
        vsock: None,
        balloon: false,
        console: false,
        software_boot: false,
        running: false,
    }
}

fn default_host() -> HostCaps {
    HostCaps { max_memslots: 32, max_vcpus: 64, stdin_pollable: true, page_size: 0x1000 }
}

#[test]
fn test_create_vcpus_x86_64() {
    let vcpu_count = 2;

    let (guest_memory, _arch_memory_info) = create_guest_memory(Arch::X86_64, 128, 0x1000, 0x1000).unwrap();
    let mut vm = setup_vm(Arch::X86_64, &guest_memory, 32, 64).unwrap();
    setup_interrupt_controller(&mut vm, vcpu_count).unwrap();
    let vcpu_config = VcpuConfig { vcpu_count, ht_enabled: false };

    // Dummy entry address, the vCPUs will not boot.
    let entry_addr = 0;
    let vcpu_vec = create_vcpus_x86_64(&mut vm, &vcpu_config, entry_addr).unwrap();
    assert_eq!(vcpu_vec.len(), vcpu_count as usize);
}

#[test]
fn test_create_vcpus_aarch64() {
    let (guest_memory, _arch_memory_info) =
        create_guest_memory(Arch::Aarch64, 128, 0x8000_0000, 0x1000).unwrap();
    let mut vm = setup_vm(Arch::Aarch64, &guest_memory, 32, 64).unwrap();
    let vcpu_count = 2;

    let vcpu_config = VcpuConfig { vcpu_count, ht_enabled: false };

    // Dummy entry address, the vCPUs will not boot.
    let entry_addr = 0;
    let vcpu_vec = create_vcpus_aarch64(&mut vm, &vcpu_config, entry_addr, false).unwrap();
    assert_eq!(vcpu_vec.len(), vcpu_count as usize);
}

#[test]
fn test_attach_vsock_device() {
    let mut event_manager = EventManager::new();
    let mut vmm = default_vmm();

    setup_interrupt_controller(&mut vmm.vm, 1).unwrap();

    let vsock_dev_id = String::from("vsock");
    let vsock = VsockDeviceConfig { vsock_id: vsock_dev_id.clone() };
    assert!(attach_unixsock_vsock_device(&mut vmm, &vsock, &mut event_manager).is_ok());

    assert!(vmm.mmio_device_manager.get_device(DeviceType::Virtio(TYPE_VSOCK), &vsock_dev_id).is_some());
}

#[test]
fn test_error_messages() {
    let err = StartMicrovmError::AttachBlockDevice(OsError { code: 0 });
    let _ = format!("{}{:?}", err.message(), err);

    let err = StartMicrovmError::CreateRateLimiter(OsError { code: 0 });
    let _ = format!("{}{:?}", err.message(), err);

    let err = StartMicrovmError::Internal(InternalError::EventFd(OsError { code: 0 }));
    let _ = format!("{}{:?}", err.message(), err);

    let err = StartMicrovmError::KernelCmdline(String::from("dummy --cmdline"));
    let _ = format!("{}{:?}", err.message(), err);

    let err = StartMicrovmError::KernelBundle(MmapRegionError::InvalidPointer);
    let _ = format!("{}{:?}", err.message(), err);

    let err = StartMicrovmError::LoadCommandline(CmdlineError::TooLarge);
    let _ = format!("{}{:?}", err.message(), err);

    let err = StartMicrovmError::MicroVMAlreadyRunning;
    let _ = format!("{}{:?}", err.message(), err);

    let err = StartMicrovmError::MissingKernelConfig;
    let _ = format!("{}{:?}", err.message(), err);

    let err = StartMicrovmError::MissingMemSizeConfig;
    let _ = format!("{}{:?}", err.message(), err);

    let err = StartMicrovmError::NetDeviceNotConfigured;
    let _ = format!("{}{:?}", err.message(), err);

    let err = StartMicrovmError::OpenBlockDevice(OsError { code: 0 });
    let _ = format!("{}{:?}", err.message(), err);

    let err = StartMicrovmError::RegisterBlockDevice(MmioError::RegisterIrqFd(VmError::NoIrqChip));
    let _ = format!("{}{:?}", err.message(), err);

    let err = StartMicrovmError::RegisterEvent(EventManagerError::AlreadyRegistered);
    let _ = format!("{}{:?}", err.message(), err);

    let err = StartMicrovmError::RegisterNetDevice(MmioError::RegisterIrqFd(VmError::NoIrqChip));
    let _ = format!("{}{:?}", err.message(), err);

    let err = StartMicrovmError::RegisterVsockDevice(MmioError::RegisterIrqFd(VmError::NoIrqChip));
    let _ = format!("{}{:?}", err.message(), err);
}

#[test]
fn test_kernel_cmdline_err_to_startuvm_err() {
    let err = StartMicrovmError::from(CmdlineError::HasSpace);
    let _ = format!("{}{:?}", err.message(), err);
}

#[test]
fn cmdline_error_converts_to_its_message() {
    let err = StartMicrovmError::from(CmdlineError::HasSpace);
    assert_eq!(err.message(), "Invalid kernel command line: String contains a space.");
}

#[test]
fn error_messages_are_exact() {
    assert_eq!(StartMicrovmError::MicroVMAlreadyRunning.message(), "Microvm already running.");
    assert_eq!(
        StartMicrovmError::MissingMemSizeConfig.message(),
        "Cannot start microvm without guest mem_size config."
    );
    assert_eq!(
        StartMicrovmError::AttachBlockDevice(OsError { code: 12 }).message(),
        "Unable to attach block device to Vmm. Error: os error 12"
    );
    assert_eq!(
        StartMicrovmError::Internal(InternalError::Vm(VmError::VcpuLimit)).message(),
        "Internal error while starting microVM: Vm(The hypervisor vCPU limit is reached.)"
    );
    assert_eq!(
        StartMicrovmError::RegisterVsockDevice(MmioError::DeviceExists).message(),
        "Cannot initialize a MMIO Vsock Device or add a device to the MMIO Bus. \
         a device with this id is already attached"
    );
    assert_eq!(
        StartMicrovmError::GuestMemoryMmap(LayoutError::KernelOutsideRam).message(),
        "Invalid Memory Configuration: KernelOutsideRam"
    );
    assert_eq!(
        StartMicrovmError::KernelCmdline(String::from("say \"hi\"")).message(),
        "Invalid kernel command line: say \"hi\""
    );
}

#[test]
fn build_minimal_machine() {
    let mut res = default_resources();
    let mut em = EventManager::new();
    let vmm = build_microvm(&mut res, &mut em, &default_host()).unwrap();
    assert_eq!(vmm.vcpus_handles.len(), 1);
    assert_eq!(vmm.vcpus_handles[0].index, 0);
    assert_eq!(vmm.vcpus_handles[0].entry_addr, 0x1000);
    assert_eq!(vmm.mmio_device_manager.num_devices(), 0);
    assert_eq!(vmm.pio_device_manager.num_devices(), 5);
    assert_eq!(em.len(), 1);
    assert!(em.is_registered(SubscriberKind::Machine, &String::from("vmm")));
    assert!(res.running);
    let kernel = vmm.guest_memory.region(1);
    assert_eq!((kernel.base, kernel.size, kernel.kind), (0x1000, 0x1000, RegionKind::Kernel));
    let loaded: String = vmm.loaded_cmdline.clone().unwrap().into_iter().collect();
    assert_eq!(loaded, DEFAULT_KERNEL_CMDLINE);
    assert!(vmm.guest_memory.contains_range(CMDLINE_START, loaded.len() as u64 + 1));
}

#[test]
fn build_without_mem_size_fails() {
    let mut res = default_resources();
    res.mem_size_mib = None;
    let mut em = EventManager::new();
    let r = build_microvm(&mut res, &mut em, &default_host());
    assert!(matches!(r, Err(StartMicrovmError::MissingMemSizeConfig)));
    assert_eq!(em.len(), 0);
    assert!(!res.running);
}

#[test]
fn build_without_kernel_fails() {
    let mut res = default_resources();
    res.kernel_bundle = None;
    res.mem_size_mib = None;
    let mut em = EventManager::new();
    let r = build_microvm(&mut res, &mut em, &default_host());
    assert!(matches!(r, Err(StartMicrovmError::MissingKernelConfig)));
    assert_eq!(em.len(), 0);
}

#[test]
fn second_build_is_refused() {
    let mut res = default_resources();
    let mut em = EventManager::new();
    let first = build_microvm(&mut res, &mut em, &default_host()).unwrap();
    let r = build_microvm(&mut res, &mut em, &default_host());
    assert!(matches!(r, Err(StartMicrovmError::MicroVMAlreadyRunning)));
    assert_eq!(em.len(), 1);
    assert_eq!(first.vcpus_handles.len(), 1);
    assert!(res.running);
}

#[test]
fn build_with_duplicate_vsock_id_fails() {
    let mut res = default_resources();
    res.fs.push(FsDeviceConfig { fs_id: String::from("shared") });
    res.vsock = Some(VsockDeviceConfig { vsock_id: String::from("shared") });
    let mut em = EventManager::new();
    let r = build_microvm(&mut res, &mut em, &default_host());
    assert!(matches!(r, Err(StartMicrovmError::RegisterVsockDevice(MmioError::DeviceExists))));
    assert!(!res.running);
}

#[test]
fn failed_vsock_attach_keeps_earlier_devices() {
    let mut vmm = default_vmm();
    let mut em = EventManager::new();
    setup_interrupt_controller(&mut vmm.vm, 1).unwrap();
    let mut mmio = default_mmio_device_manager(Arch::X86_64);
    attach_legacy_devices(&mut vmm.vm, &mut vmm.pio_device_manager, &mut mmio).unwrap();
    let fs = vec![FsDeviceConfig { fs_id: String::from("dup") }];
    attach_fs_devices(&mut vmm, &fs, &mut em).unwrap();
    let vsock = VsockDeviceConfig { vsock_id: String::from("dup") };
    let r = attach_unixsock_vsock_device(&mut vmm, &vsock, &mut em);
    assert!(matches!(r, Err(StartMicrovmError::RegisterVsockDevice(MmioError::DeviceExists))));
    assert_eq!(vmm.pio_device_manager.num_devices(), 5);
    assert!(vmm.mmio_device_manager.get_device(DeviceType::Virtio(TYPE_FS), &String::from("dup")).is_some());
    assert!(vmm.mmio_device_manager.get_device(DeviceType::Virtio(TYPE_VSOCK), &String::from("dup")).is_none());
}

#[test]
fn build_with_devices_describes_them_on_the_cmdline() {
    let mut res = default_resources();
    res.balloon = true;
    res.console = true;
    res.fs.push(FsDeviceConfig { fs_id: String::from("root") });
    res.vsock = Some(VsockDeviceConfig { vsock_id: String::from("vsock") });
    res.kernel_cmdline_epilog = Some(String::from("init=/bin/sh"));
    let mut em = EventManager::new();
    let vmm = build_microvm(&mut res, &mut em, &default_host()).unwrap();
    assert_eq!(em.len(), 5);
    let line = vmm.kernel_cmdline.as_string();
    assert!(line.contains("virtio_mmio.device=4K@0xd0000000:5"));
    assert!(line.contains("virtio_mmio.device=4K@0xd0001000:6"));
    assert!(line.contains("virtio_mmio.device=4K@0xd0002000:7"));
    assert!(line.contains("virtio_mmio.device=4K@0xd0003000:8"));
    assert!(line.ends_with(" init=/bin/sh"));
    assert!(vmm.console_interactive);
    let fs = vmm.mmio_device_manager.get_device(DeviceType::Virtio(TYPE_FS), &String::from("root")).unwrap();
    assert_eq!((fs.addr, fs.irq), (0xd000_2000, 7));
}

#[test]
fn build_aarch64_creates_vcpus_before_the_controller() {
    let mut res = default_resources();
    res.arch = Arch::Aarch64;
    res.kernel_bundle = Some(KernelBundle { host_addr: 0x1000, guest_addr: 0x8000_0000, size: 0x1000 });
    res.vcpu_config.vcpu_count = 4;
    res.software_boot = true;
    let mut em = EventManager::new();
    let vmm = build_microvm(&mut res, &mut em, &default_host()).unwrap();
    assert_eq!(vmm.vcpus_handles.len(), 4);
    assert_eq!(vmm.vcpus_handles[0].boot_senders, vec![1, 2, 3]);
    assert_eq!(vmm.vcpus_handles[2].boot_receiver, Some(2));
    assert!(vmm.vm.has_irqchip());
    assert!(vmm.loaded_cmdline.is_none());
    assert!(vmm.mmio_device_manager.get_device(DeviceType::Rtc, &String::from("rtc")).is_some());
}

#[test]
fn build_fails_on_unaligned_kernel_mapping() {
    let mut res = default_resources();
    res.kernel_bundle = Some(KernelBundle { host_addr: 0x1001, guest_addr: 0x1000, size: 0x1000 });
    let mut em = EventManager::new();
    let r = build_microvm(&mut res, &mut em, &default_host());
    assert!(matches!(r, Err(StartMicrovmError::KernelBundle(MmapRegionError::InvalidPointer))));
}

#[test]
fn build_fails_on_bad_layout() {
    let mut res = default_resources();
    res.kernel_bundle = Some(KernelBundle { host_addr: 0x1000, guest_addr: 0x1000_0000, size: 0x1000 });
    let mut em = EventManager::new();
    let r = build_microvm(&mut res, &mut em, &default_host());
    assert!(matches!(r, Err(StartMicrovmError::GuestMemoryMmap(LayoutError::KernelOutsideRam))));
}

#[test]
fn build_fails_without_enough_memory_slots() {
    let mut res = default_resources();
    let mut em = EventManager::new();
    let host = HostCaps { max_memslots: 2, max_vcpus: 64, stdin_pollable: true, page_size: 0x1000 };
    let r = build_microvm(&mut res, &mut em, &host);
    assert!(matches!(r, Err(StartMicrovmError::Internal(InternalError::Vm(VmError::NotEnoughMemorySlots)))));
}

#[test]
fn build_fails_when_a_vcpu_cannot_be_created() {
    let mut res = default_resources();
    res.vcpu_config.vcpu_count = 3;
    let mut em = EventManager::new();
    let host = HostCaps { max_memslots: 32, max_vcpus: 2, stdin_pollable: true, page_size: 0x1000 };
    let r = build_microvm(&mut res, &mut em, &host);
    assert!(matches!(r, Err(StartMicrovmError::Internal(InternalError::Vcpu(VmError::VcpuLimit)))));
    assert_eq!(em.len(), 0);
}

#[test]
fn build_fails_on_invalid_prolog() {
    let mut res = default_resources();
    res.kernel_cmdline_prolog = Some(String::from("caf\u{e9}"));
    let mut em = EventManager::new();
    let r = build_microvm(&mut res, &mut em, &default_host());
    match r {
        Err(StartMicrovmError::KernelCmdline(m)) => {
            assert_eq!(m, "String contains an invalid ASCII character.")
        }
        _ => panic!("expected a command line error"),
    }
}

#[test]
fn build_fails_when_console_registered_twice() {
    let mut res = default_resources();
    res.console = true;
    let mut em = EventManager::new();
    em.add_subscriber(SubscriberKind::Console, String::from("hvc0")).unwrap();
    let r = build_microvm(&mut res, &mut em, &default_host());
    assert!(matches!(r, Err(StartMicrovmError::RegisterEvent(EventManagerError::AlreadyRegistered))));
}

#[test]
fn serial_registration_failure_is_tolerated() {
    let mut em = EventManager::new();
    let first = setup_serial_device(&mut em).unwrap();
    assert!(first.input_registered);
    let second = setup_serial_device(&mut em).unwrap();
    assert!(!second.input_registered);
    assert_eq!(em.len(), 1);
}

#[test]
fn legacy_devices_need_the_controller_first() {
    let mut vmm = default_vmm();
    let mut mmio = default_mmio_device_manager(Arch::X86_64);
    let r = attach_legacy_devices(&mut vmm.vm, &mut vmm.pio_device_manager, &mut mmio);
    assert!(matches!(r, Err(StartMicrovmError::Internal(InternalError::Vm(VmError::NoIrqChip)))));
    let r = attach_legacy_devices(&mut vmm.vm, &mut vmm.pio_device_manager, &mut mmio);
    assert!(matches!(r, Err(StartMicrovmError::Internal(InternalError::LegacyIOBus(LegacyError::BusOverlap)))));
}

#[test]
fn console_input_mode_follows_the_machine() {
    let mut stdin = SerialStdin::get();
    assert_eq!(stdin.mode, TerminalMode::Raw);
    assert_eq!(stdin.on_vmm_stop(), TerminalMode::Canonical);
    assert_eq!(stdin.mode, TerminalMode::Canonical);
    assert_eq!(stdin.on_vmm_boot(), TerminalMode::Raw);
    assert_eq!(SerialStdin::restore(), TerminalMode::Canonical);
}

#[test]
fn test_stdin_wrapper() {
    let wrapper = SerialStdin::get();
    assert_eq!(wrapper.mode, TerminalMode::Raw)
}

#[test]
fn kernel_mapping_is_checked_against_the_host_page_size() {
    let mut res = default_resources();
    let mut em = EventManager::new();
    let host = HostCaps { max_memslots: 32, max_vcpus: 64, stdin_pollable: true, page_size: 0x4000 };
    let r = build_microvm(&mut res, &mut em, &host);
    assert!(matches!(r, Err(StartMicrovmError::KernelBundle(MmapRegionError::InvalidPointer))));
    res.kernel_bundle = Some(KernelBundle { host_addr: 0x8000, guest_addr: 0x1000, size: 0x1000 });
    assert!(build_microvm(&mut res, &mut em, &host).is_ok());
}

#[test]
fn failed_fs_attach_leaves_later_devices_untouched() {
    let mut vmm = default_vmm();
    let mut em = EventManager::new();
    setup_interrupt_controller(&mut vmm.vm, 1).unwrap();
    em.add_subscriber(SubscriberKind::Fs, String::from("second")).unwrap();
    let fs = vec![
        FsDeviceConfig { fs_id: String::from("first") },
        FsDeviceConfig { fs_id: String::from("second") },
        FsDeviceConfig { fs_id: String::from("third") },
    ];
    let r = attach_fs_devices(&mut vmm, &fs, &mut em);
    assert!(matches!(r, Err(StartMicrovmError::RegisterEvent(EventManagerError::AlreadyRegistered))));
    assert_eq!(vmm.mmio_device_manager.num_devices(), 1);
    assert!(vmm.mmio_device_manager.get_device(DeviceType::Virtio(TYPE_FS), &String::from("first")).is_some());
    assert!(!em.is_registered(SubscriberKind::Fs, &String::from("third")));
    assert_eq!(em.len(), 2);
}

#[test]
fn overflowing_epilog_is_an_error() {
    let mut res = default_resources();
    res.kernel_cmdline_epilog = Some("x".repeat(0x10000));
    let mut em = EventManager::new();
    let r = build_microvm(&mut res, &mut em, &default_host());
    match r {
        Err(StartMicrovmError::KernelCmdline(m)) => {
            assert_eq!(m, "Inserting string would make command line too long.")
        }
        _ => panic!("expected a command line error"),
    }
    assert_eq!(em.len(), 0);
}
