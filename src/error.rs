//! The closed error taxonomy of a build: one case per failure site, each
//! with one descriptive message.

use vstd::prelude::*;
use crate::cmdline::CmdlineError;
use crate::events::EventManagerError;
use crate::fmt::{decimal, push_decimal, string_of_chars, strip_quotes, without_quotes};
use crate::legacy::LegacyError;
use crate::memory::LayoutError;
use crate::mmio::MmioError;
use crate::vm::VmError;

verus! {

/// A raw error number of the host.
#[derive(Clone, Copy, Debug, PartialEq, Eq, Structural)]
pub struct OsError {
    pub code: u32,
}

impl OsError {
    pub open spec fn spec_message(self) -> Seq<char> {
        "os error "@ + decimal(self.code as nat)
    }

    pub fn message(&self) -> (r: String)
        ensures
            r@ == self.spec_message(),
    {
        let mut digits: Vec<char> = Vec::new();
        push_decimal(&mut digits, self.code as u64);
        let mut s = String::from_str("os error ");
        s.append(string_of_chars(&digits).as_str());
        s
    }
}

/// Why the host mapping of the kernel image was refused.
#[derive(Clone, Copy, Debug, PartialEq, Eq, Structural)]
pub enum MmapRegionError {
    /// The host address is not page aligned.
    InvalidPointer,
}

impl MmapRegionError {
    pub open spec fn spec_message(self) -> Seq<char> {
        "The specified pointer to the mapping is not page-aligned"@
    }

    pub fn message(&self) -> (r: String)
        ensures
            r@ == self.spec_message(),
    {
        String::from_str("The specified pointer to the mapping is not page-aligned")
    }
}

/// A failure of the machine's own parts.
#[derive(Clone, Copy, Debug, PartialEq, Eq, Structural)]
pub enum InternalError {
    /// The hypervisor refused a request about the machine.
    Vm(VmError),
    /// The hypervisor refused a vCPU.
    Vcpu(VmError),
    /// The legacy devices could not be placed.
    LegacyIOBus(LegacyError),
    /// A legacy device could not be placed in the I/O window.
    RegisterMMIODevice(MmioError),
    /// An event notifier could not be made.
    EventFd(OsError),
}

impl InternalError {
    pub open spec fn spec_message(&self) -> Seq<char> {
        match self {
            InternalError::Vm(e) => "Vm("@ + e.spec_message() + ")"@,
            InternalError::Vcpu(e) => "Vcpu("@ + e.spec_message() + ")"@,
            InternalError::LegacyIOBus(e) => "LegacyIOBus("@ + e.spec_message() + ")"@,
            InternalError::RegisterMMIODevice(e) => "RegisterMMIODevice("@ + e.spec_message() + ")"@,
            InternalError::EventFd(e) => "EventFd("@ + e.spec_message() + ")"@,
        }
    }

    pub fn message(&self) -> (r: String)
        ensures
            r@ == self.spec_message(),
    {
        let (mut s, inner) = match self {
            InternalError::Vm(e) => (String::from_str("Vm("), e.message()),
            InternalError::Vcpu(e) => (String::from_str("Vcpu("), e.message()),
            InternalError::LegacyIOBus(e) => (String::from_str("LegacyIOBus("), e.message()),
            InternalError::RegisterMMIODevice(e) => (String::from_str("RegisterMMIODevice("), e.message()),
            InternalError::EventFd(e) => (String::from_str("EventFd("), e.message()),
        };
        s.append(inner.as_str());
        s.append(")");
        s
    }
}

/// Errors of starting a microVM.
#[derive(Debug)]
pub enum StartMicrovmError {
    /// Unable to attach a block device.
    AttachBlockDevice(OsError),
    /// Failed to create a rate limiter.
    CreateRateLimiter(OsError),
    /// The memory layout is invalid or could not be mapped.
    GuestMemoryMmap(LayoutError),
    /// Cannot load the initrd due to an invalid memory configuration.
    InitrdLoad,
    /// Cannot load the initrd due to an invalid image.
    InitrdRead(OsError),
    /// A failure of the machine's own parts.
    Internal(InternalError),
    /// The kernel command line is invalid.
    KernelCmdline(String),
    /// The kernel image cannot be placed in guest memory.
    KernelBundle(MmapRegionError),
    /// The command line cannot be written into guest memory.
    LoadCommandline(CmdlineError),
    /// The start command was issued more than once.
    MicroVMAlreadyRunning,
    /// No kernel was configured.
    MissingKernelConfig,
    /// No guest memory size was configured.
    MissingMemSizeConfig,
    /// The net device configuration is missing the tap device.
    NetDeviceNotConfigured,
    /// Cannot open the block device backing file.
    OpenBlockDevice(OsError),
    /// Cannot attach a balloon device.
    RegisterBalloonDevice(MmioError),
    /// Cannot attach a block device.
    RegisterBlockDevice(MmioError),
    /// Cannot register a subscriber with the reactor.
    RegisterEvent(EventManagerError),
    /// Cannot attach a filesystem device.
    RegisterFsDevice(MmioError),
    /// Cannot register the window-size signal for a filesystem device.
    RegisterFsSigwinch(OsError),
    /// Cannot attach a network device.
    RegisterNetDevice(MmioError),
    /// Cannot attach a socket-relay device.
    RegisterVsockDevice(MmioError),
}

impl StartMicrovmError {
    /// The message: a fixed text per case, then the nested error, with
    /// double quotes removed where the nested error may quote.
    pub open spec fn spec_message(&self) -> Seq<char> {
        match self {
            StartMicrovmError::AttachBlockDevice(e) => "Unable to attach block device to Vmm. Error: "@
                + e.spec_message(),
            StartMicrovmError::CreateRateLimiter(e) => "Cannot create RateLimiter: "@ + e.spec_message(),
            StartMicrovmError::GuestMemoryMmap(e) => "Invalid Memory Configuration: "@ + without_quotes(
                e.spec_message(),
            ),
            StartMicrovmError::InitrdLoad => "Cannot load initrd due to an invalid memory configuration."@,
            StartMicrovmError::InitrdRead(e) => "Cannot load initrd due to an invalid image: "@
                + e.spec_message(),
            StartMicrovmError::Internal(e) => "Internal error while starting microVM: "@ + e.spec_message(),
            StartMicrovmError::KernelCmdline(s) => "Invalid kernel command line: "@ + s@,
            StartMicrovmError::KernelBundle(e) =>
                "Cannot inject the kernel into the guest memory due to a problem with the bundle. "@
                + without_quotes(e.spec_message()),
            StartMicrovmError::LoadCommandline(e) => "Cannot load command line string. "@ + without_quotes(
                e.spec_message(),
            ),
            StartMicrovmError::MicroVMAlreadyRunning => "Microvm already running."@,
            StartMicrovmError::MissingKernelConfig => "Cannot start microvm without kernel configuration."@,
            StartMicrovmError::MissingMemSizeConfig => "Cannot start microvm without guest mem_size config."@,
            StartMicrovmError::NetDeviceNotConfigured =>
                "The net device configuration is missing the tap device."@,
            StartMicrovmError::OpenBlockDevice(e) => "Cannot open the block device backing file. "@
                + without_quotes(e.spec_message()),
            StartMicrovmError::RegisterBalloonDevice(e) =>
                "Cannot initialize a MMIO Balloon Device or add a device to the MMIO Bus. "@ + without_quotes(
                e.spec_message(),
            ),
            StartMicrovmError::RegisterBlockDevice(e) =>
                "Cannot initialize a MMIO Block Device or add a device to the MMIO Bus. "@ + without_quotes(
                e.spec_message(),
            ),
            StartMicrovmError::RegisterEvent(e) => "Cannot register EventHandler. "@ + e.spec_message(),
            StartMicrovmError::RegisterFsDevice(e) =>
                "Cannot initialize a MMIO Fs Device or add a device to the MMIO Bus. "@ + without_quotes(
                e.spec_message(),
            ),
            StartMicrovmError::RegisterFsSigwinch(e) =>
                "Cannot register SIGWINCH file descriptor for Fs Device. "@ + without_quotes(e.spec_message()),
            StartMicrovmError::RegisterNetDevice(e) =>
                "Cannot initialize a MMIO Network Device or add a device to the MMIO Bus. "@ + without_quotes(
                e.spec_message(),
            ),
            StartMicrovmError::RegisterVsockDevice(e) =>
                "Cannot initialize a MMIO Vsock Device or add a device to the MMIO Bus. "@ + without_quotes(
                e.spec_message(),
            ),
        }
    }

    /// The one-line description of the error.
    pub fn message(&self) -> (r: String)
        ensures
            r@ == self.spec_message(),
    {
        let (mut s, detail) = match self {
            StartMicrovmError::AttachBlockDevice(e) => (
                String::from_str("Unable to attach block device to Vmm. Error: "),
                e.message(),
            ),
            StartMicrovmError::CreateRateLimiter(e) => (String::from_str("Cannot create RateLimiter: "), e.message()),
            StartMicrovmError::GuestMemoryMmap(e) => (
                String::from_str("Invalid Memory Configuration: "),
                strip_quotes(e.message().as_str()),
            ),
            StartMicrovmError::InitrdLoad => (
                String::from_str("Cannot load initrd due to an invalid memory configuration."),
                String::new(),
            ),
            StartMicrovmError::InitrdRead(e) => (
                String::from_str("Cannot load initrd due to an invalid image: "),
                e.message(),
            ),
            StartMicrovmError::Internal(e) => (
                String::from_str("Internal error while starting microVM: "),
                e.message(),
            ),
            StartMicrovmError::KernelCmdline(m) => (String::from_str("Invalid kernel command line: "), m.clone()),
            StartMicrovmError::KernelBundle(e) => (
                String::from_str(
                    "Cannot inject the kernel into the guest memory due to a problem with the bundle. ",
                ),
                strip_quotes(e.message().as_str()),
            ),
            StartMicrovmError::LoadCommandline(e) => (
                String::from_str("Cannot load command line string. "),
                strip_quotes(e.message().as_str()),
            ),
            StartMicrovmError::MicroVMAlreadyRunning => (String::from_str("Microvm already running."), String::new()),
            StartMicrovmError::MissingKernelConfig => (
                String::from_str("Cannot start microvm without kernel configuration."),
                String::new(),
            ),
            StartMicrovmError::MissingMemSizeConfig => (
                String::from_str("Cannot start microvm without guest mem_size config."),
                String::new(),
            ),
            StartMicrovmError::NetDeviceNotConfigured => (
                String::from_str("The net device configuration is missing the tap device."),
                String::new(),
            ),
            StartMicrovmError::OpenBlockDevice(e) => (
                String::from_str("Cannot open the block device backing file. "),
                strip_quotes(e.message().as_str()),
            ),
            StartMicrovmError::RegisterBalloonDevice(e) => (
                String::from_str("Cannot initialize a MMIO Balloon Device or add a device to the MMIO Bus. "),
                strip_quotes(e.message().as_str()),
            ),
            StartMicrovmError::RegisterBlockDevice(e) => (
                String::from_str("Cannot initialize a MMIO Block Device or add a device to the MMIO Bus. "),
                strip_quotes(e.message().as_str()),
            ),
            StartMicrovmError::RegisterEvent(e) => (String::from_str("Cannot register EventHandler. "), e.message()),
            StartMicrovmError::RegisterFsDevice(e) => (
                String::from_str("Cannot initialize a MMIO Fs Device or add a device to the MMIO Bus. "),
                strip_quotes(e.message().as_str()),
            ),
            StartMicrovmError::RegisterFsSigwinch(e) => (
                String::from_str("Cannot register SIGWINCH file descriptor for Fs Device. "),
                strip_quotes(e.message().as_str()),
            ),
            StartMicrovmError::RegisterNetDevice(e) => (
                String::from_str("Cannot initialize a MMIO Network Device or add a device to the MMIO Bus. "),
                strip_quotes(e.message().as_str()),
            ),
            StartMicrovmError::RegisterVsockDevice(e) => (
                String::from_str("Cannot initialize a MMIO Vsock Device or add a device to the MMIO Bus. "),
                strip_quotes(e.message().as_str()),
            ),
        };
        s.append(detail.as_str());
        proof {
            assert(s@ =~= self.spec_message());
        }
        s
    }

    /// The error for an invalid kernel command line, carrying its description.
    pub fn from_cmdline_error(e: CmdlineError) -> (r: StartMicrovmError)
        ensures
            r matches StartMicrovmError::KernelCmdline(m) && m@ == e.spec_message(),
    {
        StartMicrovmError::KernelCmdline(e.message())
    }
}

impl From<CmdlineError> for StartMicrovmError {
    fn from(e: CmdlineError) -> StartMicrovmError {
        StartMicrovmError::from_cmdline_error(e)
    }
}

impl vstd::std_specs::convert::FromSpecImpl<CmdlineError> for StartMicrovmError {
    /// The description is built at run time, so no spec value stands for the
    /// result; `from_cmdline_error` states it.
    open spec fn obeys_from_spec() -> bool {
        false
    }

    open spec fn from_spec(v: CmdlineError) -> StartMicrovmError {
        vstd::pervasive::arbitrary()
    }
}

} // verus!
