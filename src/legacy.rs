//! The port-mapped legacy device manager: a fixed set of well-known devices
//! (four serial ports and the keyboard controller) at fixed ports, with
//! fixed interrupt lines.

use vstd::prelude::*;

verus! {

/// A legacy port-mapped device.
#[derive(Clone, Copy, Debug, PartialEq, Eq, Structural)]
pub enum LegacyDevice {
    Com1,
    Com2,
    Com3,
    Com4,
    I8042,
}

/// A range of I/O ports.
#[derive(Clone, Copy, Debug, PartialEq, Eq, Structural)]
pub struct PioRange {
    pub port: u16,
    pub len: u16,
}

/// Interrupt line of the first and third serial ports.
pub const COM_1_3_IRQ: u32 = 4;

/// Interrupt line of the second and fourth serial ports.
pub const COM_2_4_IRQ: u32 = 3;

/// Interrupt line of the keyboard controller.
pub const KBD_IRQ: u32 = 1;

/// Why the legacy devices could not be placed on the I/O bus.
#[derive(Clone, Copy, Debug, PartialEq, Eq, Structural)]
pub enum LegacyError {
    /// A port range is already taken.
    BusOverlap,
}

impl LegacyError {
    pub open spec fn spec_message(self) -> Seq<char> {
        "the I/O port range is already taken"@
    }

    pub fn message(&self) -> (r: String)
        ensures
            r@ == self.spec_message(),
    {
        String::from_str("the I/O port range is already taken")
    }
}

/// The fixed placement of the legacy devices.
pub open spec fn legacy_layout() -> Seq<(LegacyDevice, PioRange)> {
    seq![
        (LegacyDevice::Com1, PioRange { port: 0x3f8, len: 0x8 }),
        (LegacyDevice::Com2, PioRange { port: 0x2f8, len: 0x8 }),
        (LegacyDevice::Com3, PioRange { port: 0x3e8, len: 0x8 }),
        (LegacyDevice::Com4, PioRange { port: 0x2e8, len: 0x8 }),
        (LegacyDevice::I8042, PioRange { port: 0x060, len: 0x5 }),
    ]
}

/// The manager of the legacy devices on the I/O bus.
pub struct PortIODeviceManager {
    bus: Vec<(LegacyDevice, PioRange)>,
}

impl View for PortIODeviceManager {
    type V = Seq<(LegacyDevice, PioRange)>;

    closed spec fn view(&self) -> Seq<(LegacyDevice, PioRange)> {
        self.bus@
    }
}

impl PortIODeviceManager {
    /// A manager with nothing on the bus yet.
    pub fn new() -> (r: PortIODeviceManager)
        ensures
            r@ == Seq::<(LegacyDevice, PioRange)>::empty(),
    {
        PortIODeviceManager { bus: Vec::new() }
    }

    pub fn num_devices(&self) -> (r: usize)
        ensures
            r == self@.len(),
    {
        self.bus.len()
    }

    /// Places every legacy device at its fixed ports.
    pub fn register_devices(&mut self) -> (r: Result<(), LegacyError>)
        ensures
            old(self)@.len() == 0 ==> r is Ok && final(self)@ == legacy_layout(),
            old(self)@.len() != 0 ==> r == Err::<(), LegacyError>(LegacyError::BusOverlap) && final(self)@ == old(
                self,
            )@,
    {
        if self.bus.len() != 0 {
            return Err(LegacyError::BusOverlap);
        }
        self.bus.push((LegacyDevice::Com1, PioRange { port: 0x3f8, len: 0x8 }));
        self.bus.push((LegacyDevice::Com2, PioRange { port: 0x2f8, len: 0x8 }));
        self.bus.push((LegacyDevice::Com3, PioRange { port: 0x3e8, len: 0x8 }));
        self.bus.push((LegacyDevice::Com4, PioRange { port: 0x2e8, len: 0x8 }));
        self.bus.push((LegacyDevice::I8042, PioRange { port: 0x060, len: 0x5 }));
        assert(self@ =~= legacy_layout());
        Ok(())
    }
}

} // verus!
