use vmm::arch::{Arch, AARCH64_DRAM_MEM_START, FIRST_ADDR_PAST_32BITS, SHM_WINDOW_SIZE, X86_64_MMIO_MEM_START};
use vmm::cmdline::{chars_of, Cmdline, CmdlineError};
use vmm::events::{EventManager, EventManagerError, SubscriberKind};
use vmm::fmt::{push_decimal, push_hex, strip_quotes};
use vmm::memory::{arch_memory_regions, LayoutError, MemoryRegion, RegionKind};
use vmm::mmio::{DeviceType, MMIODeviceManager, MmioError, TYPE_BALLOON, TYPE_FS};
use vmm::vcpu::{create_vcpus_aarch64, create_vcpus_x86_64, VcpuConfig};
use vmm::vm::{Vm, VmError};

fn ram(base: u64, size: u64) -> MemoryRegion {
    MemoryRegion { base, size, kind: RegionKind::Ram }
}

fn kernel(base: u64, size: u64) -> MemoryRegion {
    MemoryRegion { base, size, kind: RegionKind::Kernel }
}

fn x86_vm_with_irqchip(max_vcpus: u8) -> Vm {
    let mut vm = Vm::new(Arch::X86_64, 32, max_vcpus);
    vm.setup_irqchip(0).unwrap();
    vm
}

#[test]
fn layout_small_x86() {
    let l = arch_memory_regions(Arch::X86_64, 128 << 20, 0x1000, 0x1000).unwrap();
    assert_eq!(l.regions, vec![ram(0, 0x1000), kernel(0x1000, 0x1000), ram(0x2000, (128 << 20) - 0x2000)]);
    assert_eq!(l.info.ram_end_addr, 128 << 20);
    assert_eq!(l.info.shm_start_addr, 128 << 20);
    assert_eq!(l.info.shm_size, SHM_WINDOW_SIZE);
}

#[test]
fn layout_x86_above_the_io_gap() {
    let mem: u64 = 4096 << 20;
    let l = arch_memory_regions(Arch::X86_64, mem, 0x10_0000, 0x20_0000).unwrap();
    assert_eq!(
        l.regions,
        vec![
            ram(0, 0x10_0000),
            kernel(0x10_0000, 0x20_0000),
            ram(0x30_0000, X86_64_MMIO_MEM_START - 0x30_0000),
            ram(FIRST_ADDR_PAST_32BITS, mem - X86_64_MMIO_MEM_START),
        ]
    );
    assert_eq!(l.info.ram_end_addr, FIRST_ADDR_PAST_32BITS + mem - X86_64_MMIO_MEM_START);
}

#[test]
fn layout_kernel_at_start_of_ram() {
    let l = arch_memory_regions(Arch::X86_64, 64 << 20, 0, 64 << 20).unwrap();
    assert_eq!(l.regions, vec![kernel(0, 64 << 20)]);
}

#[test]
fn layout_aarch64() {
    let l = arch_memory_regions(Arch::Aarch64, 128 << 20, AARCH64_DRAM_MEM_START + 0x8_0000, 0x1000).unwrap();
    assert_eq!(
        l.regions,
        vec![
            ram(AARCH64_DRAM_MEM_START, 0x8_0000),
            kernel(AARCH64_DRAM_MEM_START + 0x8_0000, 0x1000),
            ram(AARCH64_DRAM_MEM_START + 0x8_1000, (128 << 20) - 0x8_1000),
        ]
    );
}

#[test]
fn layout_regions_never_overlap() {
    let l = arch_memory_regions(Arch::X86_64, 8192 << 20, 0x20_0000, 0x40_0000).unwrap();
    for w in l.regions.windows(2) {
        assert!(w[0].base + w[0].size <= w[1].base);
    }
    assert!(l.regions.iter().any(|r| r.kind == RegionKind::Kernel && r.base == 0x20_0000));
}

#[test]
fn layout_errors() {
    assert_eq!(arch_memory_regions(Arch::X86_64, 128 << 20, 0x1000, 0).unwrap_err(), LayoutError::EmptyKernel);
    assert_eq!(
        arch_memory_regions(Arch::X86_64, 128 << 20, 0x1001, 0x1000).unwrap_err(),
        LayoutError::UnalignedKernel
    );
    assert_eq!(
        arch_memory_regions(Arch::X86_64, 128 << 20, 0x1000, 0x1800).unwrap_err(),
        LayoutError::UnalignedKernel
    );
    assert_eq!(
        arch_memory_regions(Arch::X86_64, 1 << 20, 0x1000, 0x10_0000).unwrap_err(),
        LayoutError::KernelOutsideRam
    );
    assert_eq!(
        arch_memory_regions(Arch::Aarch64, 128 << 20, 0x1000, 0x1000).unwrap_err(),
        LayoutError::KernelOutsideRam
    );
    assert_eq!(
        arch_memory_regions(Arch::X86_64, u64::MAX & !0xfff, 0x1000, 0x1000).unwrap_err(),
        LayoutError::MemoryTooLarge
    );
}

#[test]
fn cmdline_appends_with_spaces() {
    let mut c = Cmdline::new(100);
    c.insert_str("console=hvc0").unwrap();
    c.insert_str("quiet").unwrap();
    c.insert("root", "/dev/vda").unwrap();
    assert_eq!(c.as_string(), "console=hvc0 quiet root=/dev/vda");
    assert_eq!(c.len(), 32);
}

#[test]
fn cmdline_rejects_overflow_exactly() {
    let mut c = Cmdline::new(10);
    c.insert_str("abcd").unwrap();
    // "abcd efgh" is 9 characters: one left for the terminator.
    assert_eq!(c.insert_str("efghi"), Err(CmdlineError::TooLarge));
    assert_eq!(c.as_string(), "abcd");
    c.insert_str("efgh").unwrap();
    assert_eq!(c.as_string(), "abcd efgh");
    assert_eq!(c.insert_str(""), Err(CmdlineError::TooLarge));
}

#[test]
fn cmdline_rejects_invalid_arguments() {
    let mut c = Cmdline::new(100);
    assert_eq!(c.insert_str("a\tb"), Err(CmdlineError::InvalidAscii));
    assert_eq!(c.insert("a b", "c"), Err(CmdlineError::HasSpace));
    assert_eq!(c.insert("a=b", "c"), Err(CmdlineError::HasEquals));
    assert_eq!(c.insert("a", "b c"), Err(CmdlineError::HasSpace));
    assert_eq!(c.insert("a", "\u{e9}"), Err(CmdlineError::InvalidAscii));
    assert_eq!(c.len(), 0);
}

#[test]
fn cmdline_error_messages() {
    assert_eq!(CmdlineError::TooLarge.message(), "Inserting string would make command line too long.");
    assert_eq!(CmdlineError::HasEquals.message(), "String contains an equals sign.");
}

#[test]
fn number_rendering() {
    let mut v = Vec::new();
    push_decimal(&mut v, 0);
    v.push(' ');
    push_decimal(&mut v, 1234);
    v.push(' ');
    push_hex(&mut v, 0xd000_1000, 8);
    v.push(' ');
    push_hex(&mut v, 0xab, 8);
    v.push(' ');
    push_hex(&mut v, 0x1_2345_6789, 8);
    let s: String = v.into_iter().collect();
    assert_eq!(s, "0 1234 d0001000 000000ab 123456789");
}

#[test]
fn quote_stripping() {
    assert_eq!(strip_quotes("a \"b\" c"), "a b c");
    assert_eq!(strip_quotes("plain"), "plain");
    assert_eq!(chars_of("ab"), vec!['a', 'b']);
}

#[test]
fn mmio_allocations_are_distinct() {
    let mut vm = x86_vm_with_irqchip(1);
    let mut m = MMIODeviceManager::new(0xd000_0000, 0x1_0000_0000, (5, 23));
    let a = m.register_mmio_device(&mut vm, DeviceType::Virtio(TYPE_FS), String::from("a")).unwrap();
    let b = m.register_mmio_device(&mut vm, DeviceType::Virtio(TYPE_FS), String::from("b")).unwrap();
    let c = m.register_mmio_device(&mut vm, DeviceType::Virtio(TYPE_BALLOON), String::from("c")).unwrap();
    assert_eq!(a, (0xd000_0000, 5));
    assert_eq!(b, (0xd000_1000, 6));
    assert_eq!(c, (0xd000_2000, 7));
    assert_eq!(m.num_devices(), 3);
}

#[test]
fn mmio_registration_errors() {
    let mut vm = x86_vm_with_irqchip(1);
    let mut m = MMIODeviceManager::new(0xd000_0000, 0xd000_2000, (5, 6));
    m.register_mmio_device(&mut vm, DeviceType::Virtio(TYPE_FS), String::from("a")).unwrap();
    assert_eq!(
        m.register_mmio_device(&mut vm, DeviceType::Virtio(TYPE_BALLOON), String::from("a")),
        Err(MmioError::DeviceExists)
    );
    m.register_mmio_device(&mut vm, DeviceType::Virtio(TYPE_FS), String::from("b")).unwrap();
    assert_eq!(
        m.register_mmio_device(&mut vm, DeviceType::Virtio(TYPE_FS), String::from("c")),
        Err(MmioError::IrqsExhausted)
    );

    let mut small = MMIODeviceManager::new(0xd000_0000, 0xd000_0800, (5, 23));
    assert_eq!(
        small.register_mmio_device(&mut vm, DeviceType::Virtio(TYPE_FS), String::from("x")),
        Err(MmioError::AddressSpaceExhausted)
    );

    let mut bare = Vm::new(Arch::X86_64, 32, 1);
    let mut m2 = MMIODeviceManager::new(0xd000_0000, 0x1_0000_0000, (5, 23));
    assert_eq!(
        m2.register_mmio_device(&mut bare, DeviceType::Virtio(TYPE_FS), String::from("x")),
        Err(MmioError::RegisterIrqFd(VmError::NoIrqChip))
    );
    assert_eq!(m2.num_devices(), 0);
}

#[test]
fn mmio_device_on_cmdline() {
    let m = MMIODeviceManager::new(0xd000_0000, 0x1_0000_0000, (5, 23));
    let mut c = Cmdline::new(100);
    c.insert_str("quiet").unwrap();
    m.add_device_to_cmdline(&mut c, 0xd000_1000, 6).unwrap();
    assert_eq!(c.as_string(), "quiet virtio_mmio.device=4K@0xd0001000:6");
    let mut tiny = Cmdline::new(20);
    assert_eq!(m.add_device_to_cmdline(&mut tiny, 0xd000_1000, 6), Err(MmioError::Cmdline(CmdlineError::TooLarge)));
}

#[test]
fn vcpus_get_consecutive_indices() {
    let mut vm = x86_vm_with_irqchip(8);
    let vcpus = create_vcpus_x86_64(&mut vm, &VcpuConfig { vcpu_count: 5, ht_enabled: true }, 0x1000).unwrap();
    assert_eq!(vcpus.len(), 5);
    for (i, v) in vcpus.iter().enumerate() {
        assert_eq!(v.index as usize, i);
        assert_eq!(v.entry_addr, 0x1000);
        assert!(v.ht_enabled);
        assert!(v.boot_receiver.is_none());
        assert!(v.boot_senders.is_empty());
    }
    assert_eq!(vm.vcpu_count(), 5);
}

#[test]
fn vcpu_batch_failure_discards_all() {
    let mut vm = x86_vm_with_irqchip(2);
    let r = create_vcpus_x86_64(&mut vm, &VcpuConfig { vcpu_count: 3, ht_enabled: false }, 0x1000);
    assert!(matches!(r, Err(VmError::VcpuLimit)));
    assert_eq!(vm.vcpu_count(), 2);
}

#[test]
fn vcpu_order_is_checked() {
    let mut x86 = Vm::new(Arch::X86_64, 32, 4);
    let r = create_vcpus_x86_64(&mut x86, &VcpuConfig { vcpu_count: 1, ht_enabled: false }, 0);
    assert!(matches!(r, Err(VmError::WrongOrder)));

    let mut arm = Vm::new(Arch::Aarch64, 32, 4);
    arm.setup_irqchip(0).unwrap();
    let r = create_vcpus_aarch64(&mut arm, &VcpuConfig { vcpu_count: 1, ht_enabled: false }, 0, false);
    assert!(matches!(r, Err(VmError::WrongOrder)));

    let mut arm = Vm::new(Arch::Aarch64, 32, 4);
    create_vcpus_aarch64(&mut arm, &VcpuConfig { vcpu_count: 2, ht_enabled: false }, 0, false).unwrap();
    assert_eq!(arm.setup_irqchip(1), Err(VmError::IrqChipVcpuCount));
    arm.setup_irqchip(2).unwrap();
    assert_eq!(arm.setup_irqchip(2), Err(VmError::IrqChipExists));

    let mut x86 = Vm::new(Arch::X86_64, 32, 4);
    x86.setup_irqchip(0).unwrap();
    create_vcpus_x86_64(&mut x86, &VcpuConfig { vcpu_count: 1, ht_enabled: false }, 0).unwrap();
    let r = create_vcpus_x86_64(&mut x86, &VcpuConfig { vcpu_count: 1, ht_enabled: false }, 0);
    assert!(matches!(r, Err(VmError::VcpuIndex)));
}

#[test]
fn secondary_cores_wait_for_core_zero() {
    let mut vm = Vm::new(Arch::Aarch64, 32, 8);
    let vcpus = create_vcpus_aarch64(&mut vm, &VcpuConfig { vcpu_count: 3, ht_enabled: false }, 0x8000_0000, true)
        .unwrap();
    assert_eq!(vcpus[0].boot_senders, vec![1, 2]);
    assert_eq!(vcpus[0].boot_receiver, None);
    assert_eq!(vcpus[1].boot_receiver, Some(1));
    assert_eq!(vcpus[2].boot_receiver, Some(2));
    assert!(vcpus[1].boot_senders.is_empty());
}

#[test]
fn single_vcpu_has_no_signals() {
    let mut vm = Vm::new(Arch::Aarch64, 32, 8);
    let vcpus = create_vcpus_aarch64(&mut vm, &VcpuConfig { vcpu_count: 1, ht_enabled: false }, 0, true).unwrap();
    assert!(vcpus[0].boot_senders.is_empty());
}

#[test]
fn reactor_refuses_duplicates() {
    let mut em = EventManager::new();
    em.add_subscriber(SubscriberKind::Fs, String::from("a")).unwrap();
    em.add_subscriber(SubscriberKind::Vsock, String::from("a")).unwrap();
    assert_eq!(
        em.add_subscriber(SubscriberKind::Fs, String::from("a")),
        Err(EventManagerError::AlreadyRegistered)
    );
    assert_eq!(em.len(), 2);
}
