//! The memory-mapped device manager: hands each attached device a disjoint
//! address window and an interrupt line from a bounded pool, both only ever
//! growing, and records the device under its identifier.

use vstd::prelude::*;
use crate::arch::MMIO_LEN;
use crate::cmdline::{chars_of, spec_insert, Cmdline, CmdlineError};
use crate::fmt::{decimal, hex_padded, push_decimal, push_hex};
use crate::vm::{Vm, VmError, VmState};

verus! {

/// Virtio device type of a console.
pub const TYPE_CONSOLE: u32 = 3;

/// Virtio device type of a memory balloon.
pub const TYPE_BALLOON: u32 = 5;

/// Virtio device type of a socket relay.
pub const TYPE_VSOCK: u32 = 19;

/// Virtio device type of a shared filesystem.
pub const TYPE_FS: u32 = 26;

/// The kind of an attached device.
#[derive(Clone, Copy, Debug, PartialEq, Eq, Structural)]
pub enum DeviceType {
    Virtio(u32),
    Serial,
    Rtc,
}

/// Where a device was placed.
#[derive(Debug)]
pub struct MMIODeviceInfo {
    pub device_type: DeviceType,
    pub id: String,
    pub addr: u64,
    pub len: u64,
    pub irq: u32,
}

/// Why a device could not be placed.
#[derive(Clone, Copy, Debug, PartialEq, Eq, Structural)]
pub enum MmioError {
    /// Every interrupt line of the pool is taken.
    IrqsExhausted,
    /// The address window has no room for another device.
    AddressSpaceExhausted,
    /// A device with this identifier is already attached.
    DeviceExists,
    /// The interrupt line could not be routed.
    RegisterIrqFd(VmError),
    /// The device could not be described on the kernel command line.
    Cmdline(CmdlineError),
}

impl MmioError {
    pub open spec fn spec_message(&self) -> Seq<char> {
        match self {
            MmioError::IrqsExhausted => "no more IRQs are available"@,
            MmioError::AddressSpaceExhausted => "no more MMIO address space is available"@,
            MmioError::DeviceExists => "a device with this id is already attached"@,
            MmioError::RegisterIrqFd(e) => "failed to register IRQ fd: "@ + e.spec_message(),
            MmioError::Cmdline(e) => "unable to add device to kernel command line: "@ + e.spec_message(),
        }
    }

    pub fn message(&self) -> (r: String)
        ensures
            r@ == self.spec_message(),
    {
        match self {
            MmioError::IrqsExhausted => String::from_str("no more IRQs are available"),
            MmioError::AddressSpaceExhausted => String::from_str("no more MMIO address space is available"),
            MmioError::DeviceExists => String::from_str("a device with this id is already attached"),
            MmioError::RegisterIrqFd(e) => {
                let mut s = String::from_str("failed to register IRQ fd: ");
                s.append(e.message().as_str());
                s
            },
            MmioError::Cmdline(e) => {
                let mut s = String::from_str("unable to add device to kernel command line: ");
                s.append(e.message().as_str());
                s
            },
        }
    }
}

/// A ghost record of an attached device.
pub struct DeviceSlot {
    pub device_type: DeviceType,
    pub id: Seq<char>,
    pub addr: u64,
    pub len: u64,
    pub irq: u32,
}

pub open spec fn slot_of(d: MMIODeviceInfo) -> DeviceSlot {
    DeviceSlot { device_type: d.device_type, id: d.id@, addr: d.addr, len: d.len, irq: d.irq }
}

/// The allocator's state.
pub struct MmioState {
    /// Start of the address window.
    pub first_base: nat,
    /// The first interrupt line of the pool.
    pub first_irq: nat,
    /// The next free address.
    pub next_base: nat,
    /// End (exclusive) of the address window.
    pub window_end: nat,
    /// The next free interrupt line.
    pub next_irq: nat,
    /// The last interrupt line of the pool.
    pub last_irq: nat,
    pub devices: Seq<DeviceSlot>,
}

pub open spec fn has_id(devices: Seq<DeviceSlot>, id: Seq<char>) -> bool {
    exists|i: int| 0 <= i < devices.len() && (#[trigger] devices[i]).id == id
}

/// The error, if any, of placing a device with identifier `id`.
pub open spec fn register_error(s: MmioState, vm: VmState, id: Seq<char>) -> Option<MmioError> {
    if s.next_irq > s.last_irq {
        Some(MmioError::IrqsExhausted)
    } else if s.next_base + MMIO_LEN > s.window_end {
        Some(MmioError::AddressSpaceExhausted)
    } else if !vm.irqchip {
        Some(MmioError::RegisterIrqFd(VmError::NoIrqChip))
    } else {
        None
    }
}

/// The value describing a device at `base` with line `irq` on the command line.
pub open spec fn device_param(base: u64, irq: u32) -> Seq<char> {
    decimal((MMIO_LEN / 1024) as nat) + "K@0x"@ + hex_padded(base as nat, 8) + seq![':'] + decimal(irq as nat)
}

/// A manager over `[base, window_end)` with interrupt lines `irq_base..=last_irq`.
pub struct MMIODeviceManager {
    first_base: u64,
    first_irq: u32,
    mmio_base: u64,
    window_end: u64,
    irq: u32,
    last_irq: u32,
    devices: Vec<MMIODeviceInfo>,
}

impl View for MMIODeviceManager {
    type V = MmioState;

    closed spec fn view(&self) -> MmioState {
        MmioState {
            first_base: self.first_base as nat,
            first_irq: self.first_irq as nat,
            next_base: self.mmio_base as nat,
            window_end: self.window_end as nat,
            next_irq: self.irq as nat,
            last_irq: self.last_irq as nat,
            devices: self.devices@.map_values(|d: MMIODeviceInfo| slot_of(d)),
        }
    }
}

impl MmioState {
    /// Devices are in order of placement, with growing disjoint windows and
    /// growing lines, all below the next free ones, and distinct identifiers.
    pub open spec fn wf(self) -> bool {
        &&& self.first_base <= self.next_base <= self.window_end
        &&& self.first_irq <= self.next_irq
        &&& self.window_end <= u64::MAX
        &&& self.last_irq < u32::MAX
        &&& self.next_irq <= self.last_irq + 1
        &&& forall|i: int|
            0 <= i < self.devices.len() ==> (#[trigger] self.devices[i]).addr + self.devices[i].len
                <= self.next_base && self.devices[i].irq < self.next_irq && self.devices[i].len == MMIO_LEN
                && self.first_base <= self.devices[i].addr && self.first_irq <= self.devices[i].irq
        &&& forall|i: int, j: int|
            0 <= i < j < self.devices.len() ==> (#[trigger] self.devices[i]).addr + self.devices[i].len
                <= (#[trigger] self.devices[j]).addr && self.devices[i].irq < self.devices[j].irq
        &&& forall|i: int, j: int|
            0 <= i < j < self.devices.len() ==> (#[trigger] self.devices[i]).id != (#[trigger] self.devices[j]).id
    }
}

/// No two devices placed by one manager share an address, an address
/// window, or an interrupt line.
pub proof fn lemma_mmio_allocations_distinct(s: MmioState)
    requires
        s.wf(),
    ensures
        forall|i: int, j: int|
            0 <= i < s.devices.len() && 0 <= j < s.devices.len() && i != j ==> (#[trigger] s.devices[i]).addr
                != (#[trigger] s.devices[j]).addr && s.devices[i].irq != s.devices[j].irq && (s.devices[i].addr
                + s.devices[i].len <= s.devices[j].addr || s.devices[j].addr + s.devices[j].len
                <= s.devices[i].addr),
{
    assert forall|i: int, j: int|
        0 <= i < s.devices.len() && 0 <= j < s.devices.len() && i != j implies (#[trigger] s.devices[i]).addr
            != (#[trigger] s.devices[j]).addr && s.devices[i].irq != s.devices[j].irq && (s.devices[i].addr
            + s.devices[i].len <= s.devices[j].addr || s.devices[j].addr + s.devices[j].len
            <= s.devices[i].addr) by {
        if i < j {
            assert(s.devices[i].addr + s.devices[i].len <= s.devices[j].addr);
        } else {
            assert(s.devices[j].addr + s.devices[j].len <= s.devices[i].addr);
        }
    }
}

impl MMIODeviceManager {
    /// A manager placing devices from `mmio_base` up to `window_end`, with
    /// interrupt lines `irq_base` to `irq_max`.
    pub fn new(mmio_base: u64, window_end: u64, irq_range: (u32, u32)) -> (r: MMIODeviceManager)
        requires
            mmio_base <= window_end,
            irq_range.0 <= irq_range.1 + 1,
            irq_range.1 < u32::MAX,
        ensures
            r@.wf(),
            r@ == (MmioState {
                first_base: mmio_base as nat,
                first_irq: irq_range.0 as nat,
                next_base: mmio_base as nat,
                window_end: window_end as nat,
                next_irq: irq_range.0 as nat,
                last_irq: irq_range.1 as nat,
                devices: Seq::empty(),
            }),
    {
        let r = MMIODeviceManager {
            first_base: mmio_base,
            first_irq: irq_range.0,
            mmio_base,
            window_end,
            irq: irq_range.0,
            last_irq: irq_range.1,
            devices: Vec::new(),
        };
        assert(r@.devices =~= Seq::<DeviceSlot>::empty());
        r
    }

    pub fn num_devices(&self) -> (r: usize)
        ensures
            r == self@.devices.len(),
    {
        self.devices.len()
    }

    /// The device attached under `device_type` and `id`, if any.
    pub fn get_device(&self, device_type: DeviceType, id: &String) -> (r: Option<&MMIODeviceInfo>)
        ensures
            match r {
                Some(d) => exists|i: int|
                    0 <= i < self@.devices.len() && #[trigger] self@.devices[i] == slot_of(*d) && d.device_type
                        == device_type && d.id@ == id@,
                None => forall|i: int|
                    0 <= i < self@.devices.len() ==> !((#[trigger] self@.devices[i]).device_type == device_type
                        && self@.devices[i].id == id@),
            },
    {
        let mut i: usize = 0;
        while i < self.devices.len()
            invariant
                i <= self.devices@.len(),
                forall|j: int|
                    0 <= j < i ==> !((#[trigger] self@.devices[j]).device_type == device_type && self@.devices[j].id
                        == id@),
            decreases self.devices@.len() - i,
        {
            let d = &self.devices[i];
            if d.device_type == device_type && d.id == *id {
                assert(self@.devices[i as int] == slot_of(*d));
                return Some(d);
            }
            i += 1;
        }
        None
    }

    /// Whether a device with identifier `id` is attached.
    fn contains_id(&self, id: &String) -> (r: bool)
        ensures
            r == has_id(self@.devices, id@),
    {
        let mut i: usize = 0;
        while i < self.devices.len()
            invariant
                i <= self.devices@.len(),
                forall|j: int| 0 <= j < i ==> (#[trigger] self@.devices[j]).id != id@,
            decreases self.devices@.len() - i,
        {
            if self.devices[i].id == *id {
                assert(self@.devices[i as int].id == id@);
                return true;
            }
            i += 1;
        }
        false
    }

    /// Places a device: takes the next address window and interrupt line,
    /// routes the line to the interrupt controller and records the device.
    /// Returns the window's base and the line.
    pub fn register_mmio_device(&mut self, vm: &mut Vm, device_type: DeviceType, id: String) -> (r: Result<
        (u64, u32),
        MmioError,
    >)
        requires
            old(self)@.wf(),
            old(vm).wf(),
        ensures
            final(self)@.wf(),
            final(vm).wf(),
            has_id(old(self)@.devices, id@) ==> r == Err::<(u64, u32), MmioError>(MmioError::DeviceExists)
                && final(self)@ == old(self)@ && final(vm)@ == old(vm)@,
            !has_id(old(self)@.devices, id@) ==> match register_error(old(self)@, old(vm)@, id@) {
                Some(e) => r == Err::<(u64, u32), MmioError>(e) && final(self)@ == old(self)@ && final(vm)@
                    == old(vm)@,
                None => r == Ok::<(u64, u32), MmioError>(
                    (old(self)@.next_base as u64, old(self)@.next_irq as u32),
                ) && final(vm)@ == (VmState {
                    irqfds: old(vm)@.irqfds.push(old(self)@.next_irq as u32),
                    ..old(vm)@
                }) && final(self)@ == (MmioState {
                    next_base: (old(self)@.next_base + MMIO_LEN) as nat,
                    next_irq: old(self)@.next_irq + 1,
                    devices: old(self)@.devices.push(
                        DeviceSlot {
                            device_type,
                            id: id@,
                            addr: old(self)@.next_base as u64,
                            len: MMIO_LEN,
                            irq: old(self)@.next_irq as u32,
                        },
                    ),
                    ..old(self)@
                }),
            },
    {
        if self.contains_id(&id) {
            return Err(MmioError::DeviceExists);
        }
        if self.irq > self.last_irq {
            return Err(MmioError::IrqsExhausted);
        }
        if MMIO_LEN > self.window_end - self.mmio_base {
            return Err(MmioError::AddressSpaceExhausted);
        }
        let addr = self.mmio_base;
        let irq = self.irq;
        match vm.register_irqfd(irq) {
            Err(e) => {
                return Err(MmioError::RegisterIrqFd(e));
            },
            Ok(()) => {},
        }
        let ghost old_devices = self@.devices;
        self.devices.push(MMIODeviceInfo { device_type, id, addr, len: MMIO_LEN, irq });
        self.mmio_base = addr + MMIO_LEN;
        self.irq = irq + 1;
        proof {
            let ghost slot = DeviceSlot { device_type, id: id@, addr, len: MMIO_LEN, irq };
            assert(self@.devices =~= old_devices.push(slot));
        }
        Ok((addr, irq))
    }

    /// Describes the device at `base` with line `irq` on the kernel command
    /// line, as `virtio_mmio.device=<len>K@0x<base>:<irq>`.
    pub fn add_device_to_cmdline(&self, cmdline: &mut Cmdline, base: u64, irq: u32) -> (r: Result<(), MmioError>)
        requires
            old(cmdline).wf(),
        ensures
            final(cmdline).wf(),
            final(cmdline).spec_capacity() == old(cmdline).spec_capacity(),
            match spec_insert(
                old(cmdline)@,
                old(cmdline).spec_capacity() as int,
                "virtio_mmio.device"@,
                device_param(base, irq),
            ) {
                Ok(l) => r == Ok::<(), MmioError>(()) && final(cmdline)@ == l,
                Err(e) => r == Err::<(), MmioError>(MmioError::Cmdline(e)) && final(cmdline)@ == old(cmdline)@,
            },
    {
        let key = chars_of("virtio_mmio.device");
        let mut val: Vec<char> = Vec::new();
        push_decimal(&mut val, MMIO_LEN / 1024);
        let tail = chars_of("K@0x");
        let mut i: usize = 0;
        let ghost v0 = val@;
        while i < tail.len()
            invariant
                i <= tail@.len(),
                val@ == v0 + tail@.subrange(0, i as int),
            decreases tail@.len() - i,
        {
            val.push(tail[i]);
            i += 1;
            assert(val@ =~= v0 + tail@.subrange(0, i as int));
        }
        push_hex(&mut val, base, 8);
        val.push(':');
        push_decimal(&mut val, irq as u64);
        assert(val@ =~= device_param(base, irq)) by {
            assert(tail@.subrange(0, tail@.len() as int) =~= tail@);
        }
        match cmdline.insert_chars(key, &val) {
            Ok(()) => Ok(()),
            Err(e) => Err(MmioError::Cmdline(e)),
        }
    }
}

} // verus!
