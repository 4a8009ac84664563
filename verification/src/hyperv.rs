//! Hyper-V VM firmware configuration and creation parameters.
//!
//! The decision logic of VM creation — which guest-state isolation type and
//! generation a firmware choice maps to, and the New-VM arguments a
//! configuration produces — is computed and verified here; running the
//! cmdlets is the caller's concern.

use vstd::prelude::*;

use crate::powershell::{HyperVGeneration, HyperVGuestStateIsolationType, HyperVNewVMArgs};

verus! {

/// Hyper-V VM firmware configuration.
#[derive(Debug, Clone, Copy, PartialEq, Eq, Structural)]
pub enum Firmware {
    /// PCAT.
    Pcat,
    /// OpenHCL PCAT.
    OpenhclPcat,
    /// UEFI.
    Uefi,
    /// OpenHCL UEFI, with optional isolation.
    OpenhclUefi(Option<IsolationType>),
}

/// Hyper-V isolation type.
#[derive(Debug, Clone, Copy, PartialEq, Eq, Structural)]
pub enum IsolationType {
    /// Trusted Launch.
    TrustedLaunch,
    /// VBS.
    Vbs,
    /// SNP.
    Snp,
    /// TDX.
    Tdx,
}

/// Hyper-V secure boot template choice.
#[derive(Debug, Clone, Copy, PartialEq, Eq, Structural)]
pub enum SecureBootTemplate {
    /// Template for Windows guests.
    Windows,
    /// Template for Linux guests.
    Linux,
}

/// Hyper-V VM parameters specified at creation.
pub struct InitialVmConfig {
    /// The name of the new virtual machine.
    pub name: String,
    /// The firmware configuration.
    pub firmware: Firmware,
    /// The amount of memory, in bytes, to assign to the virtual machine.
    pub memory: u64,
    /// The directory to store the files for the new virtual machine.
    pub path: Option<String>,
    /// The path to a virtual hard disk file.
    pub vhd_path: Option<String>,
}

/// The guest-state isolation type a firmware choice creates the VM with.
pub open spec fn spec_isolation_for(fw: Firmware) -> HyperVGuestStateIsolationType {
    match fw {
        Firmware::Pcat => HyperVGuestStateIsolationType::Disabled,
        Firmware::OpenhclPcat => HyperVGuestStateIsolationType::OpenHCL,
        Firmware::Uefi => HyperVGuestStateIsolationType::Disabled,
        Firmware::OpenhclUefi(iso) => match iso {
            Some(IsolationType::TrustedLaunch) => HyperVGuestStateIsolationType::TrustedLaunch,
            Some(IsolationType::Vbs) => HyperVGuestStateIsolationType::Vbs,
            Some(IsolationType::Snp) => HyperVGuestStateIsolationType::Snp,
            Some(IsolationType::Tdx) => HyperVGuestStateIsolationType::Tdx,
            None => HyperVGuestStateIsolationType::OpenHCL,
        },
    }
}

/// The VM generation a firmware choice creates the VM with: generation 1 for
/// PCAT firmware, generation 2 for UEFI.
pub open spec fn spec_generation_for(fw: Firmware) -> HyperVGeneration {
    match fw {
        Firmware::Pcat => HyperVGeneration::One,
        Firmware::OpenhclPcat => HyperVGeneration::One,
        Firmware::Uefi => HyperVGeneration::Two,
        Firmware::OpenhclUefi(_) => HyperVGeneration::Two,
    }
}

/// Maps a firmware choice to the isolation type and generation the VM is
/// created with.
pub fn firmware_creation_params(fw: &Firmware) -> (r: (
    HyperVGuestStateIsolationType,
    HyperVGeneration,
))
    ensures
        r.0 == spec_isolation_for(*fw),
        r.1 == spec_generation_for(*fw),
{
    match fw {
        Firmware::Pcat => (HyperVGuestStateIsolationType::Disabled, HyperVGeneration::One),
        Firmware::OpenhclPcat => (HyperVGuestStateIsolationType::OpenHCL, HyperVGeneration::One),
        Firmware::Uefi => (HyperVGuestStateIsolationType::Disabled, HyperVGeneration::Two),
        Firmware::OpenhclUefi(isolation) => (
            match isolation {
                Some(IsolationType::TrustedLaunch) => HyperVGuestStateIsolationType::TrustedLaunch,
                Some(IsolationType::Vbs) => HyperVGuestStateIsolationType::Vbs,
                Some(IsolationType::Snp) => HyperVGuestStateIsolationType::Snp,
                Some(IsolationType::Tdx) => HyperVGuestStateIsolationType::Tdx,
                None => HyperVGuestStateIsolationType::OpenHCL,
            },
            HyperVGeneration::Two,
        ),
    }
}

impl InitialVmConfig {
    /// Whether the VM keeps its default SCSI controller: only when an initial
    /// boot disk was provided.
    pub fn keeps_scsi_controller(&self) -> (r: bool)
        ensures
            r == (self.vhd_path is Some),
    {
        self.vhd_path.is_some()
    }

    /// The New-VM arguments this configuration creates the VM with.
    pub fn new_vm_args(self) -> (r: HyperVNewVMArgs)
        ensures
            r.name@ == self.name@,
            r.generation == Some(spec_generation_for(self.firmware)),
            r.guest_state_isolation_type == Some(spec_isolation_for(self.firmware)),
            r.memory_startup_bytes == Some(self.memory),
            r.path == self.path,
            r.vhd_path == self.vhd_path,
    {
        let params = firmware_creation_params(&self.firmware);
        HyperVNewVMArgs {
            name: self.name,
            generation: Some(params.1),
            guest_state_isolation_type: Some(params.0),
            memory_startup_bytes: Some(self.memory),
            path: self.path,
            vhd_path: self.vhd_path,
        }
    }
}

} // verus!
