//! Test-VM configuration and the helpers that modify it from its defaults.
//!
//! The configuration is held as plain values — backend, firmware kind and the
//! switches the modifiers touch — so each modifier's effect is stated
//! exactly. Modifiers that the underlying system only supports for certain
//! backends or firmware take those conditions as preconditions rather than
//! failing at run time.

use vstd::prelude::*;

verus! {

/// Which virtual machine monitor runs the test VM.
#[derive(Debug, Clone, Copy, PartialEq, Eq, Structural)]
pub enum VmmBackend {
    /// The in-repository VMM.
    OpenVmm,
    /// Hyper-V.
    HyperV,
}

/// The firmware a test VM boots.
#[derive(Debug, Clone, Copy, PartialEq, Eq, Structural)]
pub enum GuestFirmware {
    /// Direct Linux boot.
    LinuxDirect,
    /// Direct Linux boot under OpenHCL.
    OpenhclLinuxDirect,
    /// PCAT BIOS.
    Pcat,
    /// UEFI.
    Uefi,
    /// UEFI under OpenHCL.
    OpenhclUefi,
}

impl GuestFirmware {
    /// Whether this firmware runs under OpenHCL.
    pub open spec fn spec_is_openhcl(self) -> bool {
        self is OpenhclLinuxDirect || self is OpenhclUefi
    }

    /// Whether this firmware boots UEFI.
    pub open spec fn spec_is_uefi(self) -> bool {
        self is Uefi || self is OpenhclUefi
    }

    /// Whether this firmware runs under OpenHCL.
    pub fn is_openhcl(&self) -> (r: bool)
        ensures
            r == self.spec_is_openhcl(),
    {
        matches!(self, GuestFirmware::OpenhclLinuxDirect | GuestFirmware::OpenhclUefi)
    }

    /// Whether this firmware boots UEFI.
    pub fn is_uefi(&self) -> (r: bool)
        ensures
            r == self.spec_is_uefi(),
    {
        matches!(self, GuestFirmware::Uefi | GuestFirmware::OpenhclUefi)
    }
}

/// Configuration state for a test VM, reduced to the values the helpers
/// below read and write.
#[derive(Debug, Clone, Copy, PartialEq, Eq, Structural)]
pub struct PetriVmConfig {
    /// Which VMM runs the VM.
    pub backend: VmmBackend,
    /// The firmware the VM boots.
    pub firmware: GuestFirmware,
    /// Whether VMBus is redirected through VTL2.
    pub vmbus_redirect: bool,
    /// Whether the VTL0 alias map is enabled.
    pub vtl0_alias_map: bool,
    /// Number of virtual processors.
    pub proc_count: u32,
    /// Whether secure boot is enabled.
    pub secure_boot_enabled: bool,
}

impl PetriVmConfig {
    /// Enables VMBus redirection. Supported only on the OpenVMM backend and
    /// only under OpenHCL.
    pub fn with_vmbus_redirect(self) -> (r: PetriVmConfig)
        requires
            self.backend is OpenVmm,
            self.firmware.spec_is_openhcl(),
        ensures
            r == (PetriVmConfig { vmbus_redirect: true, ..self }),
    {
        PetriVmConfig { vmbus_redirect: true, ..self }
    }

    /// Enables the VTL0 alias map. Supported only on the OpenVMM backend and
    /// only under OpenHCL.
    pub fn with_vtl0_alias_map(self) -> (r: PetriVmConfig)
        requires
            self.backend is OpenVmm,
            self.firmware.spec_is_openhcl(),
        ensures
            r == (PetriVmConfig { vtl0_alias_map: true, ..self }),
    {
        PetriVmConfig { vtl0_alias_map: true, ..self }
    }

    /// Sets the VM to a single processor. Supported only on the OpenVMM
    /// backend.
    pub fn with_single_processor(self) -> (r: PetriVmConfig)
        requires
            self.backend is OpenVmm,
        ensures
            r == (PetriVmConfig { proc_count: 1, ..self }),
    {
        PetriVmConfig { proc_count: 1, ..self }
    }

    /// Enables secure boot. Supported only on the OpenVMM backend and only
    /// for UEFI firmware.
    pub fn with_secure_boot(self) -> (r: PetriVmConfig)
        requires
            self.backend is OpenVmm,
            self.firmware.spec_is_uefi(),
        ensures
            r == (PetriVmConfig { secure_boot_enabled: true, ..self }),
    {
        PetriVmConfig { secure_boot_enabled: true, ..self }
    }
}

} // verus!
