//! Tests of the command-line builders, output parsing and VM configuration
//! helpers.

use nvme_driver::construct::{self, HyperVConfig};
use nvme_driver::hvc;
use nvme_driver::hvc::VmState;
use nvme_driver::hyperv::{firmware_creation_params, Firmware, InitialVmConfig, IsolationType};
use nvme_driver::powershell::{
    create_child_vhd, run_dismount_vhd, HyperVGeneration, HyperVGuestStateIsolationType,
    HyperVSecureBootTemplate, PowerShellBuilder,
};
use nvme_driver::testing::SimpleTest;
use nvme_driver::vm_config::{GuestFirmware, PetriVmConfig, VmmBackend};

fn words(b: &PowerShellBuilder) -> Vec<&str> {
    b.args.iter().map(|s| s.as_str()).collect()
}

#[test]
fn test_create_child_vhd_args() {
    let b = create_child_vhd("c:\\child.vhdx", "c:\\parent.vhdx");
    assert_eq!(
        words(&b),
        ["New-VHD", "-Path", "c:\\child.vhdx", "-ParentPath", "c:\\parent.vhdx", "-Differencing"]
    );
}

#[test]
fn test_run_dismount_vhd_args() {
    let b = run_dismount_vhd("c:\\image.vhdx");
    assert_eq!(words(&b), ["Dismount-VHD", "-Path", "c:\\image.vhdx"]);
}

#[test]
fn test_powershell_builder_pipeline() {
    let b = PowerShellBuilder::new()
        .cmdlet("Get-VM")
        .arg("Name", "vm0")
        .pipeline()
        .cmdlet("Remove-VM")
        .flag("Force")
        .finish();
    assert_eq!(words(&b), ["Get-VM", "-Name", "vm0", "|", "Remove-VM", "-Force"]);
}

#[test]
fn test_run_new_vm_args_full() {
    let config = HyperVConfig {
        name: "testvm".to_string(),
        generation: Some(construct::HyperVGeneration::Two),
        memory_startup_bytes: Some("1048576".to_string()),
        path: Some("c:\\vms".to_string()),
        vhd_path: Some("c:\\vms\\boot.vhdx".to_string()),
    };
    let b = construct::run_new_vm(&config);
    assert_eq!(
        words(&b),
        [
            "New-VM",
            "-Force",
            "-Name",
            "testvm",
            "-Generation",
            "2",
            "-MemoryStartupBytes",
            "1048576",
            "-Path",
            "c:\\vms",
            "-VHDPath",
            "c:\\vms\\boot.vhdx",
        ]
    );
}

#[test]
fn test_run_new_vm_args_minimal() {
    let config = HyperVConfig {
        name: "bare".to_string(),
        generation: None,
        memory_startup_bytes: None,
        path: None,
        vhd_path: None,
    };
    let b = construct::run_new_vm(&config);
    assert_eq!(words(&b), ["New-VM", "-Force", "-Name", "bare"]);
}

#[test]
fn test_run_remove_vm_args() {
    let b = construct::run_remove_vm("oldvm");
    assert_eq!(words(&b), ["Remove-VM", "-Name", "oldvm", "-Force"]);
}

#[test]
fn test_hvc_command_lines() {
    fn s(v: &Vec<String>) -> Vec<&str> {
        v.iter().map(|s| s.as_str()).collect()
    }
    assert_eq!(s(&hvc::hvc_start("vm1")), ["start", "vm1"]);
    assert_eq!(s(&hvc::hvc_stop("vm1")), ["stop", "vm1"]);
    assert_eq!(s(&hvc::hvc_kill("vm1")), ["kill", "vm1"]);
    assert_eq!(s(&hvc::hvc_restart("vm1")), ["restart", "vm1"]);
    assert_eq!(s(&hvc::hvc_reset("vm1")), ["reset", "vm1"]);
    assert_eq!(s(&hvc::hvc_state("vm1")), ["state", "vm1"]);
}

#[test]
fn test_parse_vm_state() {
    assert_eq!(hvc::parse_vm_state("off"), Some(VmState::Off));
    assert_eq!(hvc::parse_vm_state("on"), Some(VmState::On));
    assert_eq!(hvc::parse_vm_state("starting"), Some(VmState::Starting));
    assert_eq!(hvc::parse_vm_state("stopping"), Some(VmState::Stopping));
    assert_eq!(hvc::parse_vm_state("saved"), Some(VmState::Saved));
    assert_eq!(hvc::parse_vm_state("paused"), Some(VmState::Paused));
    assert_eq!(hvc::parse_vm_state("resetting"), Some(VmState::Resetting));
    assert_eq!(hvc::parse_vm_state("saving"), Some(VmState::Saving));
    assert_eq!(hvc::parse_vm_state("pausing"), Some(VmState::Pausing));
    assert_eq!(hvc::parse_vm_state("resuming"), Some(VmState::Resuming));
    assert_eq!(hvc::parse_vm_state("hibernating"), None);
}

#[test]
fn test_firmware_creation_params() {
    assert_eq!(
        firmware_creation_params(&Firmware::Pcat),
        (HyperVGuestStateIsolationType::Disabled, HyperVGeneration::One)
    );
    assert_eq!(
        firmware_creation_params(&Firmware::OpenhclPcat),
        (HyperVGuestStateIsolationType::OpenHCL, HyperVGeneration::One)
    );
    assert_eq!(
        firmware_creation_params(&Firmware::Uefi),
        (HyperVGuestStateIsolationType::Disabled, HyperVGeneration::Two)
    );
    assert_eq!(
        firmware_creation_params(&Firmware::OpenhclUefi(None)),
        (HyperVGuestStateIsolationType::OpenHCL, HyperVGeneration::Two)
    );
    assert_eq!(
        firmware_creation_params(&Firmware::OpenhclUefi(Some(IsolationType::Snp))),
        (HyperVGuestStateIsolationType::Snp, HyperVGeneration::Two)
    );
    assert_eq!(
        firmware_creation_params(&Firmware::OpenhclUefi(Some(IsolationType::TrustedLaunch))),
        (HyperVGuestStateIsolationType::TrustedLaunch, HyperVGeneration::Two)
    );
}

#[test]
fn test_initial_vm_config_new_vm_args() {
    let config = InitialVmConfig {
        name: "petri-vm".to_string(),
        firmware: Firmware::OpenhclUefi(Some(IsolationType::Tdx)),
        memory: 1 << 30,
        path: None,
        vhd_path: Some("c:\\disk.vhdx".to_string()),
    };
    assert!(config.keeps_scsi_controller());
    let args = config.new_vm_args();
    assert_eq!(args.name, "petri-vm");
    assert_eq!(args.generation, Some(HyperVGeneration::Two));
    assert_eq!(
        args.guest_state_isolation_type,
        Some(HyperVGuestStateIsolationType::Tdx)
    );
    assert_eq!(args.memory_startup_bytes, Some(1 << 30));
    assert_eq!(args.path, None);
    assert_eq!(args.vhd_path, Some("c:\\disk.vhdx".to_string()));
}

#[test]
fn test_secure_boot_template_args() {
    assert_eq!(HyperVSecureBootTemplate::SecureBootDisabled.as_arg(), "SecureBootDisabled");
    assert_eq!(HyperVSecureBootTemplate::MicrosoftWindows.as_arg(), "MicrosoftWindows");
    assert_eq!(
        HyperVSecureBootTemplate::MicrosoftUEFICertificateAuthority.as_arg(),
        "MicrosoftUEFICertificateAuthority"
    );
    assert_eq!(HyperVSecureBootTemplate::OpenSourceShieldedVM.as_arg(), "OpenSourceShieldedVM");
}

fn base_config(firmware: GuestFirmware) -> PetriVmConfig {
    PetriVmConfig {
        backend: VmmBackend::OpenVmm,
        firmware,
        vmbus_redirect: false,
        vtl0_alias_map: false,
        proc_count: 4,
        secure_boot_enabled: false,
    }
}

#[test]
fn test_with_vmbus_redirect() {
    let c = base_config(GuestFirmware::OpenhclUefi).with_vmbus_redirect();
    assert!(c.vmbus_redirect);
    assert_eq!(c.proc_count, 4);
}

#[test]
fn test_with_vtl0_alias_map() {
    let c = base_config(GuestFirmware::OpenhclLinuxDirect).with_vtl0_alias_map();
    assert!(c.vtl0_alias_map);
    assert!(!c.vmbus_redirect);
}

#[test]
fn test_with_single_processor() {
    let c = base_config(GuestFirmware::LinuxDirect).with_single_processor();
    assert_eq!(c.proc_count, 1);
}

#[test]
fn test_with_secure_boot() {
    let c = base_config(GuestFirmware::Uefi).with_secure_boot();
    assert!(c.secure_boot_enabled);
    let c = base_config(GuestFirmware::OpenhclUefi).with_secure_boot();
    assert!(c.secure_boot_enabled);
}

#[test]
fn test_simple_test_new() {
    let t = SimpleTest::new(
        "boot".to_string(),
        vec!["TEST_LOG_DIRECTORY".to_string()],
        |name: &str| name.len(),
    );
    assert_eq!(t.leaf_name(), "boot");
    assert_eq!(t.requirements, vec!["TEST_LOG_DIRECTORY".to_string()]);
    assert_eq!((t.run)("abc"), 3);
}

#[test]
fn test_get_cmd_display_form() {
    let b = PowerShellBuilder::new().cmdlet("Dismount-VHD").arg("Path", "x.vhdx").finish();
    assert_eq!(b.get_cmd(), "powershell.exe -NoProfile Dismount-VHD -Path x.vhdx");
}
