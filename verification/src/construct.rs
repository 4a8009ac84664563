//! The New-VM command line built from a plain VM configuration.

use vstd::prelude::*;

use crate::powershell::{spec_flag, PowerShellBuilder};

verus! {

/// Hyper-V VM generation, as the New-VM cmdlet takes it.
#[derive(Debug, Clone, Copy, PartialEq, Eq, Structural)]
pub enum HyperVGeneration {
    /// Generation 1.
    One,
    /// Generation 2.
    Two,
}

impl HyperVGeneration {
    /// The cmdlet argument naming this generation.
    pub fn as_arg(&self) -> (r: &'static str)
        ensures
            r@ == (match *self {
                HyperVGeneration::One => "1"@,
                HyperVGeneration::Two => "2"@,
            }),
    {
        match self {
            HyperVGeneration::One => "1",
            HyperVGeneration::Two => "2",
        }
    }
}

/// Everything New-VM needs to create a virtual machine.
pub struct HyperVConfig {
    /// The name of the new virtual machine.
    pub name: String,
    /// The generation for the virtual machine.
    pub generation: Option<HyperVGeneration>,
    /// The amount of memory, in bytes, to assign to the virtual machine.
    pub memory_startup_bytes: Option<String>,
    /// The directory to store the files for the new virtual machine.
    pub path: Option<String>,
    /// The path to a virtual hard disk file.
    pub vhd_path: Option<String>,
}

/// The words the New-VM command line opens with, before the optional
/// arguments.
pub open spec fn spec_new_vm_prefix(name: Seq<char>) -> Seq<Seq<char>> {
    seq!["New-VM"@, spec_flag("Force"@), spec_flag("Name"@), name]
}

/// Builds the New-VM command line for `config`: the cmdlet, the force flag,
/// the VM name, then each optional argument — generation, startup memory,
/// directory, boot disk — exactly when the configuration carries it.
/// Launching the interpreter on it is the caller's concern.
pub fn run_new_vm(config: &HyperVConfig) -> (r: PowerShellBuilder)
    ensures
        r.spec_args() == {
            let base = spec_new_vm_prefix(config.name@);
            let with_gen = if config.generation is Some {
                base.push(spec_flag("Generation"@)).push(
                    match config.generation->Some_0 {
                        HyperVGeneration::One => "1"@,
                        HyperVGeneration::Two => "2"@,
                    },
                )
            } else {
                base
            };
            let with_mem = if config.memory_startup_bytes is Some {
                with_gen.push(spec_flag("MemoryStartupBytes"@)).push(
                    config.memory_startup_bytes->Some_0@,
                )
            } else {
                with_gen
            };
            let with_path = if config.path is Some {
                with_mem.push(spec_flag("Path"@)).push(config.path->Some_0@)
            } else {
                with_mem
            };
            if config.vhd_path is Some {
                with_path.push(spec_flag("VHDPath"@)).push(config.vhd_path->Some_0@)
            } else {
                with_path
            }
        },
{
    let mut b = PowerShellBuilder::new().cmdlet("New-VM").flag("Force").arg(
        "Name",
        config.name.as_str(),
    );
    proof {
        assert(b.spec_args() =~= spec_new_vm_prefix(config.name@));
    }
    b = match &config.generation {
        Some(g) => b.arg("Generation", g.as_arg()),
        None => b,
    };
    b = match &config.memory_startup_bytes {
        Some(m) => b.arg("MemoryStartupBytes", m.as_str()),
        None => b,
    };
    b = match &config.path {
        Some(p) => b.arg("Path", p.as_str()),
        None => b,
    };
    b = match &config.vhd_path {
        Some(v) => b.arg("VHDPath", v.as_str()),
        None => b,
    };
    b.finish()
}

/// Builds the Remove-VM command line for the named VM.
pub fn run_remove_vm(vm: &str) -> (r: PowerShellBuilder)
    ensures
        r.spec_args() == seq!["Remove-VM"@, spec_flag("Name"@), vm@, spec_flag("Force"@)],
{
    let r = PowerShellBuilder::new().cmdlet("Remove-VM").arg("Name", vm).flag("Force").finish();
    proof {
        assert(r.spec_args() =~= seq!["Remove-VM"@, spec_flag("Name"@), vm@, spec_flag("Force"@)]);
    }
    r
}

} // verus!
