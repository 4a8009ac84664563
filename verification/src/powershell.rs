//! Building PowerShell command lines for the Hyper-V cmdlets the test
//! infrastructure drives.
//!
//! Everything here only computes the argument list, pinned word for word by
//! the contracts; launching the interpreter and collecting its output is
//! process I/O and lives with the caller.

use vstd::prelude::*;

verus! {

/// Hyper-V VM generation.
#[derive(Debug, Clone, Copy, PartialEq, Eq, Structural)]
pub enum HyperVGeneration {
    /// Generation 1 (emulated legacy devices and PCAT BIOS).
    One,
    /// Generation 2 (synthetic devices and UEFI).
    Two,
}

impl HyperVGeneration {
    /// The cmdlet argument naming this generation.
    pub fn as_arg(&self) -> (r: &'static str)
        ensures
            r@ == (match *self {
                HyperVGeneration::One => "1"@,
                HyperVGeneration::Two => "2"@,
            }),
    {
        match self {
            HyperVGeneration::One => "1",
            HyperVGeneration::Two => "2",
        }
    }
}

/// Hyper-V guest state isolation type.
#[derive(Debug, Clone, Copy, PartialEq, Eq, Structural)]
pub enum HyperVGuestStateIsolationType {
    /// Trusted Launch (OpenHCL, SecureBoot, TPM).
    TrustedLaunch,
    /// VBS.
    Vbs,
    /// SNP.
    Snp,
    /// TDX.
    Tdx,
    /// OpenHCL but no isolation.
    OpenHCL,
    /// No HCL and no isolation.
    Disabled,
}

impl HyperVGuestStateIsolationType {
    /// The cmdlet argument naming this isolation type.
    pub fn as_arg(&self) -> (r: &'static str)
        ensures
            r@ == (match *self {
                HyperVGuestStateIsolationType::TrustedLaunch => "TrustedLaunch"@,
                HyperVGuestStateIsolationType::Vbs => "VBS"@,
                HyperVGuestStateIsolationType::Snp => "SNP"@,
                HyperVGuestStateIsolationType::Tdx => "TDX"@,
                HyperVGuestStateIsolationType::OpenHCL => "OpenHCL"@,
                HyperVGuestStateIsolationType::Disabled => "Disabled"@,
            }),
    {
        match self {
            HyperVGuestStateIsolationType::TrustedLaunch => "TrustedLaunch",
            HyperVGuestStateIsolationType::Vbs => "VBS",
            HyperVGuestStateIsolationType::Snp => "SNP",
            HyperVGuestStateIsolationType::Tdx => "TDX",
            HyperVGuestStateIsolationType::OpenHCL => "OpenHCL",
            HyperVGuestStateIsolationType::Disabled => "Disabled",
        }
    }
}

/// Hyper-V secure boot template.
#[derive(Debug, Clone, Copy, PartialEq, Eq, Structural)]
pub enum HyperVSecureBootTemplate {
    /// Secure boot disabled.
    SecureBootDisabled,
    /// Windows secure boot template.
    MicrosoftWindows,
    /// Microsoft UEFI certificate authority template.
    MicrosoftUEFICertificateAuthority,
    /// Open-source shielded VM template.
    OpenSourceShieldedVM,
}

impl HyperVSecureBootTemplate {
    /// The cmdlet argument naming this template.
    pub fn as_arg(&self) -> (r: &'static str)
        ensures
            r@ == (match *self {
                HyperVSecureBootTemplate::SecureBootDisabled => "SecureBootDisabled"@,
                HyperVSecureBootTemplate::MicrosoftWindows => "MicrosoftWindows"@,
                HyperVSecureBootTemplate::MicrosoftUEFICertificateAuthority => "MicrosoftUEFICertificateAuthority"@,
                HyperVSecureBootTemplate::OpenSourceShieldedVM => "OpenSourceShieldedVM"@,
            }),
    {
        match self {
            HyperVSecureBootTemplate::SecureBootDisabled => "SecureBootDisabled",
            HyperVSecureBootTemplate::MicrosoftWindows => "MicrosoftWindows",
            HyperVSecureBootTemplate::MicrosoftUEFICertificateAuthority => {
                "MicrosoftUEFICertificateAuthority"
            },
            HyperVSecureBootTemplate::OpenSourceShieldedVM => "OpenSourceShieldedVM",
        }
    }
}

/// Arguments for the New-VM cmdlet.
pub struct HyperVNewVMArgs {
    /// The name of the new virtual machine.
    pub name: String,
    /// The generation for the virtual machine.
    pub generation: Option<HyperVGeneration>,
    /// The guest state isolation type.
    pub guest_state_isolation_type: Option<HyperVGuestStateIsolationType>,
    /// The amount of memory, in bytes, to assign to the virtual machine.
    pub memory_startup_bytes: Option<u64>,
    /// The directory to store the files for the new virtual machine.
    pub path: Option<String>,
    /// The path to a virtual hard disk file.
    pub vhd_path: Option<String>,
}

/// The words of a command line, each as a sequence of characters.
pub open spec fn spec_words(args: Seq<String>) -> Seq<Seq<char>> {
    args.map_values(|s: String| s@)
}

/// A flag word: a dash followed by the flag's name.
pub open spec fn spec_flag(name: Seq<char>) -> Seq<char> {
    seq!['-'] + name
}

/// A PowerShell script under construction, as the list of words handed to the
/// interpreter.
pub struct PowerShellBuilder {
    /// The words accumulated so far.
    pub args: Vec<String>,
}

/// A cmdlet under construction within a script.
pub struct PowerShellCmdletBuilder {
    /// The words accumulated so far.
    pub args: Vec<String>,
}

impl PowerShellBuilder {
    /// The words accumulated so far.
    pub open spec fn spec_args(self) -> Seq<Seq<char>> {
        spec_words(self.args@)
    }

    /// Starts an empty script.
    pub fn new() -> (r: PowerShellBuilder)
        ensures
            r.spec_args() == Seq::<Seq<char>>::empty(),
    {
        let r = PowerShellBuilder { args: Vec::new() };
        proof {
            assert(r.spec_args() =~= Seq::<Seq<char>>::empty());
        }
        r
    }

    /// Starts a new cmdlet.
    pub fn cmdlet(self, cmdlet: &str) -> (r: PowerShellCmdletBuilder)
        ensures
            r.spec_args() == self.spec_args().push(cmdlet@),
    {
        let mut args = self.args;
        let ghost before = args@;
        args.push(String::from_str(cmdlet));
        proof {
            assert(spec_words(args@) =~= spec_words(before).push(cmdlet@));
        }
        PowerShellCmdletBuilder { args }
    }
}

impl PowerShellCmdletBuilder {
    /// The words accumulated so far.
    pub open spec fn spec_args(self) -> Seq<Seq<char>> {
        spec_words(self.args@)
    }

    /// Adds a flag to the cmdlet.
    pub fn flag(self, flag: &str) -> (r: PowerShellCmdletBuilder)
        ensures
            r.spec_args() == self.spec_args().push(spec_flag(flag@)),
    {
        let mut word = String::from_str("-");
        word.append(flag);
        proof {
            reveal_strlit("-");
            assert(word@ =~= spec_flag(flag@));
        }
        let mut args = self.args;
        let ghost before = args@;
        args.push(word);
        proof {
            assert(spec_words(args@) =~= spec_words(before).push(spec_flag(flag@)));
        }
        PowerShellCmdletBuilder { args }
    }

    /// Adds a positional argument to the cmdlet.
    pub fn positional(self, positional: &str) -> (r: PowerShellCmdletBuilder)
        ensures
            r.spec_args() == self.spec_args().push(positional@),
    {
        let mut args = self.args;
        let ghost before = args@;
        args.push(String::from_str(positional));
        proof {
            assert(spec_words(args@) =~= spec_words(before).push(positional@));
        }
        PowerShellCmdletBuilder { args }
    }

    /// Adds a named argument to the cmdlet: the flag, then its value.
    pub fn arg(self, name: &str, value: &str) -> (r: PowerShellCmdletBuilder)
        ensures
            r.spec_args() == self.spec_args().push(spec_flag(name@)).push(value@),
    {
        self.flag(name).positional(value)
    }

    /// Optionally adds a named argument to the cmdlet.
    pub fn arg_opt(self, name: &str, value: Option<&str>) -> (r: PowerShellCmdletBuilder)
        ensures
            value is Some ==> r.spec_args() == self.spec_args().push(spec_flag(name@)).push(
                value->Some_0@,
            ),
            value is None ==> r.spec_args() == self.spec_args(),
    {
        match value {
            Some(v) => self.arg(name, v),
            None => self,
        }
    }

    /// Finishes the cmdlet.
    pub fn finish(self) -> (r: PowerShellBuilder)
        ensures
            r.spec_args() == self.spec_args(),
    {
        PowerShellBuilder { args: self.args }
    }

    /// Finishes the cmdlet with a pipeline operator.
    pub fn pipeline(self) -> (r: PowerShellBuilder)
        ensures
            r.spec_args() == self.spec_args().push("|"@),
    {
        self.positional("|").finish()
    }

    /// Finishes the cmdlet with a statement separator.
    pub fn next(self) -> (r: PowerShellBuilder)
        ensures
            r.spec_args() == self.spec_args().push(";"@),
    {
        self.positional(";").finish()
    }
}

/// The display form of a command: the program followed by each word,
/// separated by single spaces.
pub open spec fn spec_command_line(program: Seq<char>, words: Seq<Seq<char>>) -> Seq<char>
    decreases words.len(),
{
    if words.len() == 0 {
        program
    } else {
        spec_command_line(program, words.drop_last()) + seq![' '] + words.last()
    }
}

impl PowerShellBuilder {
    /// The command line about to be run, as one string, for diagnostics.
    pub fn get_cmd(&self) -> (r: String)
        ensures
            r@ == spec_command_line("powershell.exe -NoProfile"@, self.spec_args()),
    {
        let mut out = String::from_str("powershell.exe -NoProfile");
        let mut i: usize = 0;
        while i < self.args.len()
            invariant
                i <= self.args@.len(),
                out@ == spec_command_line(
                    "powershell.exe -NoProfile"@,
                    self.spec_args().take(i as int),
                ),
            decreases self.args@.len() - i,
        {
            out.append(" ");
            out.append(self.args[i].as_str());
            proof {
                reveal_strlit(" ");
                let w = self.spec_args();
                assert(w.take(i + 1).drop_last() =~= w.take(i as int));
                assert(w.take(i + 1).last() == w[i as int]);
                assert(" "@ =~= seq![' ']);
            }
            i = i + 1;
        }
        proof {
            assert(self.spec_args().take(self.args@.len() as int) =~= self.spec_args());
        }
        out
    }
}

/// The command line creating a differencing VHD with the given parent.
/// Launching the interpreter on it is the caller's concern.
pub fn create_child_vhd(path: &str, parent_path: &str) -> (r: PowerShellBuilder)
    ensures
        r.spec_args() == seq![
            "New-VHD"@,
            spec_flag("Path"@),
            path@,
            spec_flag("ParentPath"@),
            parent_path@,
            spec_flag("Differencing"@),
        ],
{
    let r = PowerShellBuilder::new().cmdlet("New-VHD").arg("Path", path).arg(
        "ParentPath",
        parent_path,
    ).flag("Differencing").finish();
    proof {
        assert(r.spec_args() =~= seq![
            "New-VHD"@,
            spec_flag("Path"@),
            path@,
            spec_flag("ParentPath"@),
            parent_path@,
            spec_flag("Differencing"@),
        ]);
    }
    r
}

/// The command line dismounting a VHD. Launching the interpreter on it is the
/// caller's concern.
pub fn run_dismount_vhd(path: &str) -> (r: PowerShellBuilder)
    ensures
        r.spec_args() == seq!["Dismount-VHD"@, spec_flag("Path"@), path@],
{
    let r = PowerShellBuilder::new().cmdlet("Dismount-VHD").arg("Path", path).finish();
    proof {
        assert(r.spec_args() =~= seq!["Dismount-VHD"@, spec_flag("Path"@), path@]);
    }
    r
}

} // verus!
